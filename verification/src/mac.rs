//! Hardware addresses.

use vstd::prelude::*;
use crate::text::{hex_text_of_byte, push_hex_byte};

verus! {

/// A hardware address of six bytes.
#[derive(Clone, Copy, Debug)]
pub struct MacAddr(pub u8, pub u8, pub u8, pub u8, pub u8, pub u8);

impl MacAddr {
    /// The address as text: its six bytes in order, each as two lowercase
    /// hexadecimal digits, with a colon between neighbours.
    pub open spec fn text(self) -> Seq<char> {
        hex_text_of_byte(self.0) + ":"@ + hex_text_of_byte(self.1) + ":"@ + hex_text_of_byte(self.2)
            + ":"@ + hex_text_of_byte(self.3) + ":"@ + hex_text_of_byte(self.4) + ":"@
            + hex_text_of_byte(self.5)
    }

    /// Appends the address as text.
    pub fn push_to(&self, out: &mut String)
        ensures
            final(out)@ == old(out)@ + self.text(),
    {
        push_hex_byte(out, self.0);
        out.append(":");
        push_hex_byte(out, self.1);
        out.append(":");
        push_hex_byte(out, self.2);
        out.append(":");
        push_hex_byte(out, self.3);
        out.append(":");
        push_hex_byte(out, self.4);
        out.append(":");
        push_hex_byte(out, self.5);
        assert(out@ =~= old(out)@ + self.text());
    }

    /// The address as text.
    pub fn to_string(&self) -> (s: String)
        ensures
            s@ == self.text(),
    {
        let mut s = String::new();
        self.push_to(&mut s);
        assert(s@ =~= self.text());
        s
    }
}

} // verus!
