//! Receive side of the serial console: the ring buffer that the UART
//! interrupt fills, and what is echoed for each received byte.
use vstd::prelude::*;

verus! {

/// Capacity of the receive ring buffer.
pub const RX_BUF_SIZE: usize = 256;

/// Flag register bit: receive FIFO empty.
pub const UART_FR_RXFE: u32 = 1 << 4;

/// Characters received over the UART, overwritten oldest first.
pub struct RxBuffer {
    data: Vec<char>,
    head: usize,
}

impl View for RxBuffer {
    type V = (Seq<char>, nat);

    closed spec fn view(&self) -> (Seq<char>, nat) {
        (self.data@, self.head as nat)
    }
}

impl RxBuffer {
    pub open spec fn wf(&self) -> bool {
        self@.0.len() == RX_BUF_SIZE && self@.1 < RX_BUF_SIZE
    }

    /// An empty buffer: all slots NUL, writing from slot 0.
    pub fn new() -> (r: RxBuffer)
        ensures
            r.wf(),
            r@.1 == 0,
            forall|i: int| 0 <= i < RX_BUF_SIZE ==> #[trigger] r@.0[i] == '\0',
    {
        let mut data: Vec<char> = Vec::new();
        let mut i: usize = 0;
        while i < RX_BUF_SIZE
            invariant
                i <= RX_BUF_SIZE,
                data@.len() == i,
                forall|k: int| 0 <= k < i ==> #[trigger] data@[k] == '\0',
            decreases RX_BUF_SIZE - i,
        {
            data.push('\0');
            i = i + 1;
        }
        RxBuffer { data, head: 0 }
    }

    /// Store `c` at the write position and advance it, wrapping at the end.
    pub fn push(&mut self, c: char)
        requires
            old(self).wf(),
        ensures
            final(self).wf(),
            final(self)@.0 == old(self)@.0.update(old(self)@.1 as int, c),
            final(self)@.1 == (old(self)@.1 + 1) % (RX_BUF_SIZE as nat),
    {
        self.data.set(self.head, c);
        self.head = (self.head + 1) % RX_BUF_SIZE;
    }

    /// The write position.
    pub fn head(&self) -> (r: usize)
        ensures
            r == self@.1,
    {
        self.head
    }

    /// The character in slot `i`.
    pub fn get(&self, i: usize) -> (r: char)
        requires
            self.wf(),
            i < RX_BUF_SIZE,
        ensures
            r == self@.0[i as int],
    {
        self.data[i]
    }
}

/// What the console does with a received character.
#[derive(Debug, Clone, Copy, PartialEq, Eq, Structural)]
pub enum RxEcho {
    /// Carriage return: start a new line.
    Newline,
    /// DEL: erase the last character.
    Backspace,
    /// Anything else: print it.
    Print(char),
}

/// The character in the low byte of a data-register value.
pub open spec fn rx_char_spec(data: u32) -> char {
    ((data & 0xff) as u8) as char
}

/// Receive one data-register value: store its character and say how the
/// console echoes it.
pub fn uart_receive(buf: &mut RxBuffer, data: u32) -> (r: RxEcho)
    requires
        old(buf).wf(),
    ensures
        final(buf).wf(),
        final(buf)@.0 == old(buf)@.0.update(old(buf)@.1 as int, rx_char_spec(data)),
        final(buf)@.1 == (old(buf)@.1 + 1) % (RX_BUF_SIZE as nat),
        rx_char_spec(data) == '\r' ==> r == RxEcho::Newline,
        rx_char_spec(data) == '\x7f' ==> r == RxEcho::Backspace,
        rx_char_spec(data) != '\r' && rx_char_spec(data) != '\x7f' ==> r == RxEcho::Print(
            rx_char_spec(data),
        ),
{
    let c = ((data & 0xff) as u8) as char;
    buf.push(c);
    if c == '\r' {
        RxEcho::Newline
    } else if c == '\x7f' {
        RxEcho::Backspace
    } else {
        RxEcho::Print(c)
    }
}

/// Whether the flag register says the receive FIFO holds more data.
pub fn rx_pending(flags: u32) -> (r: bool)
    ensures
        r == (flags & UART_FR_RXFE == 0),
{
    flags & UART_FR_RXFE == 0
}

} // verus!
