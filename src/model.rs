//! Patch records, their mathematical views, the serial rule and the
//! identifier derived from release, serial and checksum.
use vstd::prelude::*;
use crate::text::{dec_of, hex_of, push_dec, push_hex};

verus! {

/// The exact number of characters in a serial.
pub const SERIAL_LEN: usize = 6;

/// One byte-range edit: an address and the bytes before and after.
pub struct Replacement {
    pub addr: u32,
    pub before: Vec<u8>,
    pub after: Vec<u8>,
}

pub ghost struct ReplacementView {
    pub addr: u32,
    pub before: Seq<u8>,
    pub after: Seq<u8>,
}

impl View for Replacement {
    type V = ReplacementView;

    open spec fn view(&self) -> ReplacementView {
        ReplacementView { addr: self.addr, before: self.before@, after: self.after@ }
    }
}

/// A named set of replacements for one build, given by release, serial and checksum.
pub struct Patch {
    pub title: String,
    pub serial: String,
    pub release: u16,
    pub checksum: u16,
    pub replacements: Vec<Replacement>,
}

pub ghost struct PatchView {
    pub title: Seq<char>,
    pub serial: Seq<char>,
    pub release: u16,
    pub checksum: u16,
    pub replacements: Seq<ReplacementView>,
}

impl View for Patch {
    type V = PatchView;

    open spec fn view(&self) -> PatchView {
        PatchView {
            title: self.title@,
            serial: self.serial@,
            release: self.release,
            checksum: self.checksum,
            replacements: self.replacements@.map_values(|r: Replacement| r@),
        }
    }
}

impl PatchView {
    /// The serial is exactly six characters long.
    pub open spec fn well_formed(self) -> bool {
        self.serial.len() == SERIAL_LEN
    }
}

/// The views of a batch of patches, in order.
pub open spec fn batch_view(patches: Seq<Patch>) -> Seq<PatchView> {
    patches.map_values(|p: Patch| p@)
}

/// A serial that is not exactly six characters long.
#[derive(Debug, PartialEq, Eq, Structural)]
pub struct ShapeError {
    pub len: usize,
}

impl ShapeError {
    /// The description of the rejected serial.
    pub fn message(&self) -> (r: String)
        ensures
            r@ == "Serial number must be 6 characters"@,
    {
        String::from_str("Serial number must be 6 characters")
    }
}

/// Accepts a serial of exactly six characters and rejects any other.
pub fn check_serial(serial: String) -> (r: Result<String, ShapeError>)
    ensures
        serial@.len() == SERIAL_LEN ==> r == Ok::<String, ShapeError>(serial),
        serial@.len() != SERIAL_LEN ==> r is Err,
        r matches Err(e) ==> e.len as nat == serial@.len(),
{
    let len = serial.as_str().unicode_len();
    if len == SERIAL_LEN {
        Ok(serial)
    } else {
        Err(ShapeError { len })
    }
}

impl Patch {
    /// Builds a patch, rejecting a serial that is not six characters long.
    pub fn new(
        title: String,
        serial: String,
        release: u16,
        checksum: u16,
        replacements: Vec<Replacement>,
    ) -> (r: Result<Patch, ShapeError>)
        ensures
            serial@.len() == SERIAL_LEN <==> r is Ok,
            r matches Ok(p) ==> p@.well_formed(),
            r matches Ok(p) ==> p@ == (PatchView {
                title: title@,
                serial: serial@,
                release,
                checksum,
                replacements: replacements@.map_values(|x: Replacement| x@),
            }),
            r matches Err(e) ==> e.len as nat == serial@.len(),
    {
        match check_serial(serial) {
            Ok(serial) => Ok(Patch { title, serial, release, checksum, replacements }),
            Err(e) => Err(e),
        }
    }

    /// The identifier of the build that this patch applies to.
    pub fn identifier(&self) -> (r: String)
        ensures
            r@ == identifier_of(self.release, self.serial@, self.checksum),
    {
        derive_identifier(self.release, self.serial.as_str(), self.checksum)
    }
}

/// `{release}-{serial}` for a serial that starts with `8`, else
/// `{release}-{serial}-{checksum in lowercase hex}`.
pub open spec fn identifier_of(release: u16, serial: Seq<char>, checksum: u16) -> Seq<char> {
    if serial.len() > 0 && serial[0] == '8' {
        dec_of(release as nat) + "-"@ + serial
    } else {
        dec_of(release as nat) + "-"@ + serial + "-"@ + hex_of(checksum as nat)
    }
}

/// Derives the build identifier from release, serial and checksum.
pub fn derive_identifier(release: u16, serial: &str, checksum: u16) -> (r: String)
    ensures
        r@ == identifier_of(release, serial@, checksum),
{
    let mut s = String::new();
    push_dec(&mut s, release as u64);
    s.append("-");
    s.append(serial);
    let starts_with_eight = serial.unicode_len() > 0 && serial.get_char(0) == '8';
    if !starts_with_eight {
        s.append("-");
        push_hex(&mut s, checksum as u32);
    }
    s
}

} // verus!
