//! The byte sink that receives every log line.
//!
//! The hardware byte channel itself is an external collaborator; here the
//! sink is modelled as the sequence of bytes emitted so far, which the
//! surrounding program drains to the real output channel. The tagged helper
//! lines (`log_error`, `log_info`) prefix a severity marker.

use vstd::prelude::*;
use vstd::string::StringSliceAdditionalSpecFns;

verus! {

/// The byte sink; its view is the sequence of bytes emitted so far.
pub struct Serial {
    emitted: Vec<u8>,
}

impl View for Serial {
    type V = Seq<u8>;

    closed spec fn view(&self) -> Seq<u8> {
        self.emitted@
    }
}

impl Serial {
    /// A sink with nothing emitted yet.
    pub fn new() -> (r: Serial)
        ensures
            r@ == Seq::<u8>::empty(),
    {
        Serial { emitted: Vec::new() }
    }

    /// Emits one byte.
    pub fn write_byte(&mut self, byte: u8)
        ensures
            final(self)@ == old(self)@.push(byte),
    {
        self.emitted.push(byte);
    }

    /// Emits a byte sequence, in order.
    pub fn write_bytes(&mut self, bytes: &[u8])
        ensures
            final(self)@ == old(self)@ + bytes@,
    {
        let mut i: usize = 0;
        while i < bytes.len()
            invariant
                i <= bytes@.len(),
                self@ == old(self)@ + bytes@.take(i as int),
            decreases bytes@.len() - i,
        {
            self.emitted.push(bytes[i]);
            proof {
                assert(self@ =~= old(self)@ + bytes@.take(i as int + 1));
            }
            i += 1;
        }
        proof {
            assert(bytes@.take(bytes@.len() as int) =~= bytes@);
        }
    }

    /// The bytes emitted so far, for inspection.
    pub fn emitted(&self) -> (r: &Vec<u8>)
        ensures
            r@ == self@,
    {
        &self.emitted
    }
}

/// The marker prefixed to an error line.
pub open spec fn error_prefix() -> Seq<u8> {
    seq![0x5bu8, 0x45u8, 0x52u8, 0x52u8, 0x4fu8, 0x52u8, 0x5du8, 0x20u8]
}

/// The marker prefixed to an informational line.
pub open spec fn info_prefix() -> Seq<u8> {
    seq![0x5bu8, 0x49u8, 0x4eu8, 0x46u8, 0x4fu8, 0x5du8, 0x20u8]
}

/// The full line that `log_error` emits for `message`.
pub open spec fn error_line(message: Seq<u8>) -> Seq<u8> {
    error_prefix() + message + seq![0x0au8]
}

/// The full line that `log_info` emits for `message`.
pub open spec fn info_line(message: Seq<u8>) -> Seq<u8> {
    info_prefix() + message + seq![0x0au8]
}

/// Emits one error line: the error marker, the message bytes, a newline.
pub fn log_error(serial: &mut Serial, message: &str)
    ensures
        final(serial)@ == old(serial)@ + error_line(message.spec_bytes()),
{
    let prefix: Vec<u8> = vec![0x5bu8, 0x45u8, 0x52u8, 0x52u8, 0x4fu8, 0x52u8, 0x5du8, 0x20u8];
    serial.write_bytes(prefix.as_slice());
    serial.write_bytes(message.as_bytes());
    serial.write_byte(0x0au8);
    proof {
        assert(serial@ =~= old(serial)@ + error_line(message.spec_bytes()));
    }
}

/// Emits one informational line: the info marker, the message bytes, a
/// newline.
pub fn log_info(serial: &mut Serial, message: &str)
    ensures
        final(serial)@ == old(serial)@ + info_line(message.spec_bytes()),
{
    let prefix: Vec<u8> = vec![0x5bu8, 0x49u8, 0x4eu8, 0x46u8, 0x4fu8, 0x5du8, 0x20u8];
    serial.write_bytes(prefix.as_slice());
    serial.write_bytes(message.as_bytes());
    serial.write_byte(0x0au8);
    proof {
        assert(serial@ =~= old(serial)@ + info_line(message.spec_bytes()));
    }
}

} // verus!
