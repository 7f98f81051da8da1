//! Log levels and the fixed-size buffer that formatted log messages are
//! written into before they are handed to the host.
use vstd::prelude::*;
use vstd::string::StringSliceAdditionalSpecFns;

verus! {

/// Log levels for algo logging.
#[derive(Clone, Copy, Debug, PartialEq, Eq, Structural)]
pub enum LogLevel {
    Trace,
    Debug,
    Info,
    Warn,
    Error,
}

impl LogLevel {
    /// Numeric level sent to the host: 0 for `Trace` up to 4 for `Error`.
    pub open spec fn spec_code(self) -> u8 {
        match self {
            LogLevel::Trace => 0,
            LogLevel::Debug => 1,
            LogLevel::Info => 2,
            LogLevel::Warn => 3,
            LogLevel::Error => 4,
        }
    }

    /// Numeric level sent to the host: 0 for `Trace` up to 4 for `Error`.
    pub fn code(self) -> (r: u8)
        ensures
            r == self.spec_code(),
    {
        match self {
            LogLevel::Trace => 0,
            LogLevel::Debug => 1,
            LogLevel::Info => 2,
            LogLevel::Warn => 3,
            LogLevel::Error => 4,
        }
    }
}

/// Capacity of a log buffer in bytes.
pub const LOG_BUF_LEN: usize = 128;

/// Log buffer for formatting: keeps the first 128 bytes written, drops the rest.
pub struct LogBuf {
    buf: [u8; LOG_BUF_LEN],
    pos: usize,
}

impl View for LogBuf {
    type V = Seq<u8>;

    /// The bytes written so far.
    closed spec fn view(&self) -> Seq<u8> {
        self.buf@.take(self.pos as int)
    }
}

impl LogBuf {
    #[verifier::type_invariant]
    spec fn within_capacity(self) -> bool {
        self.pos <= LOG_BUF_LEN
    }

    /// An empty buffer.
    pub fn new() -> (r: LogBuf)
        ensures
            r@ == Seq::<u8>::empty(),
    {
        LogBuf { buf: [0u8; LOG_BUF_LEN], pos: 0 }
    }

    /// The bytes written so far.
    pub fn as_slice(&self) -> (r: &[u8])
        ensures
            r@ == self@,
            r@.len() <= LOG_BUF_LEN,
    {
        proof {
            use_type_invariant(self);
        }
        vstd::slice::slice_subrange(self.buf.as_slice(), 0, self.pos)
    }

    /// Append the bytes of `s`, as many as fit; the rest is dropped.
    pub fn write_str(&mut self, s: &str)
        ensures
            final(self)@ == old(self)@ + s.spec_bytes().take(
                if s.spec_bytes().len() <= LOG_BUF_LEN - old(self)@.len() {
                    s.spec_bytes().len() as int
                } else {
                    LOG_BUF_LEN - old(self)@.len()
                },
            ),
            final(self)@.len() <= LOG_BUF_LEN,
    {
        proof {
            use_type_invariant(&*self);
        }
        let bytes = s.as_bytes();
        let space = LOG_BUF_LEN - self.pos;
        let n = if bytes.len() <= space { bytes.len() } else { space };
        let ghost before = self@;
        let start = self.pos;
        let mut i: usize = 0;
        while i < n
            invariant
                n <= space,
                space == LOG_BUF_LEN - start,
                start <= LOG_BUF_LEN,
                self.pos == start,
                n <= bytes@.len(),
                i <= n,
                before == self.buf@.take(start as int),
                forall|j: int| 0 <= j < i ==> #[trigger] self.buf@[start + j] == bytes@[j],
            decreases n - i,
        {
            self.buf[start + i] = bytes[i];
            i = i + 1;
        }
        self.pos = start + n;
        assert forall|k: int| start <= k < start + n implies self.buf@[k] == bytes@[k - start] by {
            assert(self.buf@[start + (k - start)] == bytes@[k - start]);
        }
        assert(self@ =~= before + bytes@.take(n as int));
    }
}

} // verus!
