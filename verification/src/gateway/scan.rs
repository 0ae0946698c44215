//! Reading a scanned code: a port, or a device with its ports. Scanning
//! never reserves a port or creates an order.
use vstd::prelude::*;
use crate::text::{has_control, is_control, is_white_space, is_whitespace, string_eq, utf8_len};
use vstd::string::StrSliceExecFns;

verus! {

#[derive(Debug, Clone, Copy, PartialEq, Eq, Structural)]
pub enum ScanError {
    /// The code is empty, too long, or holds control or blank characters.
    InvalidCode,
    /// Port or device records are duplicated.
    Duplicate,
    /// No enabled device or port has that code.
    NotFound,
}

/// A scanned code: 1 to 64 bytes, no control characters, no white space.
pub open spec fn code_ok(s: Seq<char>) -> bool {
    s.len() > 0 && utf8_len(s) <= 64 && forall|i: int|
        0 <= i < s.len() ==> !is_white_space(#[trigger] s[i]) && !crate::text::is_control_char(s[i])
}

pub fn validate(code: &str) -> (r: Result<(), ScanError>)
    ensures
        code_ok(code@) ==> r is Ok,
        !code_ok(code@) ==> r == Err::<(), ScanError>(ScanError::InvalidCode),
{
    if code.is_empty() || code.len() > 64 {
        return Err(ScanError::InvalidCode);
    }
    let n = code.unicode_len();
    let mut i: usize = 0;
    while i < n
        invariant
            n == code@.len(),
            i <= n,
            forall|j: int|
                0 <= j < i ==> !is_white_space(#[trigger] code@[j]) && !crate::text::is_control_char(
                    code@[j],
                ),
        decreases n - i,
    {
        let c = code.get_char(i);
        if is_control(c) || is_whitespace(c) {
            return Err(ScanError::InvalidCode);
        }
        i = i + 1;
    }
    Ok(())
}

/// A port found by a scan, before the duplicate check.
pub struct FoundPort {
    pub port_code: String,
    pub port_no: u8,
}

/// Two ports found clash: the same code, or for a device's ports the same
/// number.
pub open spec fn clash(x: FoundPort, y: FoundPort, by_device: bool) -> bool {
    x.port_code@ == y.port_code@ || (by_device && x.port_no == y.port_no)
}

/// Whether the ports found are free of duplicates: by port code, or, for a
/// device's ports, by port number; a lookup by port code finds at most one.
pub open spec fn ports_distinct(rows: Seq<FoundPort>, by_device: bool) -> bool {
    &&& (!by_device ==> rows.len() <= 1)
    &&& forall|i: int, j: int|
        0 <= i < j < rows.len() ==> !#[trigger] clash(rows[i], rows[j], by_device)
}

pub fn check_ports(rows: &[FoundPort], by_device: bool) -> (r: Result<(), ScanError>)
    ensures
        ports_distinct(rows@, by_device) ==> r is Ok,
        !ports_distinct(rows@, by_device) ==> r == Err::<(), ScanError>(ScanError::Duplicate),
{
    if !by_device && rows.len() > 1 {
        return Err(ScanError::Duplicate);
    }
    let mut j: usize = 0;
    while j < rows.len()
        invariant
            j <= rows@.len(),
            !by_device ==> rows@.len() <= 1,
            forall|a: int, b: int| 0 <= a < b < j ==> !#[trigger] clash(rows@[a], rows@[b], by_device),
        decreases rows@.len() - j,
    {
        let mut i: usize = 0;
        while i < j
            invariant
                j < rows@.len(),
                i <= j,
                forall|a: int| 0 <= a < i ==> !#[trigger] clash(rows@[a], rows@[j as int], by_device),
            decreases j - i,
        {
            if string_eq(&rows[i].port_code, &rows[j].port_code) || (by_device && rows[i].port_no
                == rows[j].port_no) {
                assert(clash(rows@[i as int], rows@[j as int], by_device));
                return Err(ScanError::Duplicate);
            }
            assert(!clash(rows@[i as int], rows@[j as int], by_device));
            i = i + 1;
        }
        j = j + 1;
    }
    Ok(())
}

/// Picks the one enabled device a code names, when no port has that code.
pub fn single_device(count: usize) -> (r: Result<(), ScanError>)
    ensures
        count == 1 ==> r is Ok,
        count > 1 ==> r == Err::<(), ScanError>(ScanError::Duplicate),
        count == 0 ==> r == Err::<(), ScanError>(ScanError::NotFound),
{
    if count > 1 {
        Err(ScanError::Duplicate)
    } else if count == 0 {
        Err(ScanError::NotFound)
    } else {
        Ok(())
    }
}

} // verus!
