//! The decisions of the three transports, apart from their I/O: which USB
//! device is a label printer, which of its endpoints carry the data, which
//! spooler printer to use, and when a link counts as healthy.
use crate::barcode::{opt_chars, string_result_chars};
use crate::error::PrinterError;
use vstd::prelude::*;

verus! {

/// Vendor ID of the Argox OS-2140.
pub const ARGOX_VID: u16 = 0x1CBE;

/// Product ID of the Argox OS-2140.
pub const ARGOX_PID: u16 = 0x0002;

/// Timeout of every USB transfer, in milliseconds.
pub const USB_TIMEOUT_MS: u64 = 1000;

/// Vendor and product ID of a USB device.
#[derive(Clone, Copy, Debug, PartialEq, Eq, Structural)]
pub struct UsbDeviceId {
    pub vendor_id: u16,
    pub product_id: u16,
}

/// Direction of a USB endpoint, seen from the host.
#[derive(Clone, Copy, Debug, PartialEq, Eq, Structural)]
pub enum EndpointDirection {
    In,
    Out,
}

/// What the interface descriptor says of one endpoint.
#[derive(Clone, Copy, Debug, PartialEq, Eq, Structural)]
pub struct EndpointInfo {
    pub address: u8,
    pub direction: EndpointDirection,
    pub is_bulk: bool,
}

/// The two bulk endpoints that a printer link uses.
#[derive(Clone, Copy, Debug, PartialEq, Eq, Structural)]
pub struct UsbEndpoints {
    pub endpoint_out: u8,
    pub endpoint_in: u8,
}

/// The ID pairs of the printer models that the USB transport drives.
pub open spec fn known_printer_ids() -> Seq<UsbDeviceId> {
    seq![UsbDeviceId { vendor_id: ARGOX_VID, product_id: ARGOX_PID }]
}

/// The first position in `devices` whose ID is among `known`.
pub open spec fn is_first_match(devices: Seq<UsbDeviceId>, known: Seq<UsbDeviceId>, i: int) -> bool {
    &&& 0 <= i < devices.len()
    &&& known.contains(devices[i])
    &&& forall|j: int| 0 <= j < i ==> !known.contains(#[trigger] devices[j])
}

pub open spec fn has_match(devices: Seq<UsbDeviceId>, known: Seq<UsbDeviceId>) -> bool {
    exists|i: int| 0 <= i < devices.len() && known.contains(#[trigger] devices[i])
}

/// Where the USB device search ends: the first attached device of a known
/// model, or `DeviceNotFound`.
pub open spec fn device_search(devices: Seq<UsbDeviceId>, known: Seq<UsbDeviceId>) -> Result<
    usize,
    PrinterError,
> {
    if has_match(devices, known) {
        Ok((choose|i: int| is_first_match(devices, known, i)) as usize)
    } else {
        Err(PrinterError::DeviceNotFound)
    }
}

/// The address of the last bulk endpoint in direction `dir`, if any.
pub open spec fn last_bulk(eps: Seq<EndpointInfo>, dir: EndpointDirection) -> Option<u8>
    decreases eps.len(),
{
    if eps.len() == 0 {
        None
    } else if eps.last().is_bulk && eps.last().direction == dir {
        Some(eps.last().address)
    } else {
        last_bulk(eps.drop_last(), dir)
    }
}

/// What `select_endpoints` returns.
pub open spec fn endpoints_outcome(eps: Seq<EndpointInfo>) -> Result<UsbEndpoints, PrinterError> {
    match (last_bulk(eps, EndpointDirection::Out), last_bulk(eps, EndpointDirection::In)) {
        (Some(o), Some(i)) => Ok(UsbEndpoints { endpoint_out: o, endpoint_in: i }),
        _ => Err(PrinterError::EndpointNotFound),
    }
}

pub open spec fn names_view(v: Seq<String>) -> Seq<Seq<char>> {
    v.map_values(|s: String| s@)
}

/// The names that are not empty, in their order.
pub open spec fn named_only(s: Seq<Seq<char>>) -> Seq<Seq<char>>
    decreases s.len(),
{
    if s.len() == 0 {
        Seq::empty()
    } else if s.last().len() > 0 {
        named_only(s.drop_last()).push(s.last())
    } else {
        named_only(s.drop_last())
    }
}

/// The printer to connect to: the requested one, which must be installed,
/// or the first installed one where none is requested.
pub open spec fn strict_choice(available: Seq<Seq<char>>, requested: Option<Seq<char>>) -> Result<
    Seq<char>,
    PrinterError,
> {
    if available.len() == 0 {
        Err(PrinterError::DeviceNotFound)
    } else {
        match requested {
            None => Ok(available[0]),
            Some(n) => if available.contains(n) {
                Ok(n)
            } else {
                Err(PrinterError::DeviceNotFound)
            },
        }
    }
}

/// The printer to print on: the requested one where it is installed, else
/// the first installed one.
pub open spec fn lenient_choice(available: Seq<Seq<char>>, requested: Option<Seq<char>>) -> Result<
    Seq<char>,
    PrinterError,
> {
    if available.len() == 0 {
        Err(PrinterError::DeviceNotFound)
    } else {
        match requested {
            Some(n) => if available.contains(n) {
                Ok(n)
            } else {
                Ok(available[0])
            },
            None => Ok(available[0]),
        }
    }
}

/// The known printer models, as a list of ID pairs.
pub fn known_printers() -> (r: Vec<UsbDeviceId>)
    ensures
        r@ == known_printer_ids(),
{
    let mut v: Vec<UsbDeviceId> = Vec::new();
    v.push(UsbDeviceId { vendor_id: ARGOX_VID, product_id: ARGOX_PID });
    assert(v@ =~= known_printer_ids());
    v
}

fn id_in(id: UsbDeviceId, known: &Vec<UsbDeviceId>) -> (r: bool)
    ensures
        r == known@.contains(id),
{
    let mut k: usize = 0;
    while k < known.len()
        invariant
            0 <= k <= known@.len(),
            forall|j: int| 0 <= j < k ==> known@[j] != id,
        decreases known@.len() - k,
    {
        let c = known[k];
        if c.vendor_id == id.vendor_id && c.product_id == id.product_id {
            assert(known@[k as int] == id);
            return true;
        }
        k += 1;
    }
    false
}

/// At most one position is the first match.
proof fn lemma_first_match_unique(devices: Seq<UsbDeviceId>, known: Seq<UsbDeviceId>, i: int, j: int)
    requires
        is_first_match(devices, known, i),
        is_first_match(devices, known, j),
    ensures
        i == j,
{
    if i < j {
        assert(!known.contains(devices[i]));
    } else if j < i {
        assert(!known.contains(devices[j]));
    }
}

/// The position of the first attached device whose vendor and product ID
/// are among `known`; `DeviceNotFound` where none is.
pub fn find_printer_device(devices: &Vec<UsbDeviceId>, known: &Vec<UsbDeviceId>) -> (r: Result<
    usize,
    PrinterError,
>)
    ensures
        r == device_search(devices@, known@),
        r is Ok ==> is_first_match(devices@, known@, r->Ok_0 as int),
{
    let mut i: usize = 0;
    while i < devices.len()
        invariant
            0 <= i <= devices@.len(),
            forall|j: int| 0 <= j < i ==> !known@.contains(#[trigger] devices@[j]),
        decreases devices@.len() - i,
    {
        if id_in(devices[i], known) {
            proof {
                let c = choose|k: int| is_first_match(devices@, known@, k);
                assert(is_first_match(devices@, known@, i as int));
                lemma_first_match_unique(devices@, known@, c, i as int);
            }
            return Ok(i);
        }
        i += 1;
    }
    Err(PrinterError::DeviceNotFound)
}

/// The positions of all attached devices of a known model, in order.
pub open spec fn matching_positions(devices: Seq<UsbDeviceId>, known: Seq<UsbDeviceId>) -> Seq<usize>
    decreases devices.len(),
{
    if devices.len() == 0 {
        Seq::empty()
    } else if known.contains(devices.last()) {
        matching_positions(devices.drop_last(), known).push((devices.len() - 1) as usize)
    } else {
        matching_positions(devices.drop_last(), known)
    }
}

/// The positions of all attached devices whose vendor and product ID are
/// among `known`, in order.
pub fn printer_device_positions(devices: &Vec<UsbDeviceId>, known: &Vec<UsbDeviceId>) -> (r: Vec<
    usize,
>)
    ensures
        r@ == matching_positions(devices@, known@),
{
    let mut r: Vec<usize> = Vec::new();
    let mut i: usize = 0;
    while i < devices.len()
        invariant
            0 <= i <= devices@.len(),
            r@ == matching_positions(devices@.subrange(0, i as int), known@),
        decreases devices@.len() - i,
    {
        assert(devices@.subrange(0, i + 1).drop_last() =~= devices@.subrange(0, i as int));
        if id_in(devices[i], known) {
            r.push(i);
        }
        i += 1;
    }
    assert(devices@.subrange(0, devices@.len() as int) =~= devices@);
    r
}

/// The last bulk OUT and the last bulk IN endpoint of an interface;
/// `EndpointNotFound` where either direction has none.
pub fn select_endpoints(eps: &Vec<EndpointInfo>) -> (r: Result<UsbEndpoints, PrinterError>)
    ensures
        r == endpoints_outcome(eps@),
{
    let mut out: Option<u8> = None;
    let mut inp: Option<u8> = None;
    let mut i: usize = 0;
    while i < eps.len()
        invariant
            0 <= i <= eps@.len(),
            out == last_bulk(eps@.subrange(0, i as int), EndpointDirection::Out),
            inp == last_bulk(eps@.subrange(0, i as int), EndpointDirection::In),
        decreases eps@.len() - i,
    {
        let e = eps[i];
        assert(eps@.subrange(0, i + 1).drop_last() =~= eps@.subrange(0, i as int));
        if e.is_bulk {
            match e.direction {
                EndpointDirection::Out => out = Some(e.address),
                EndpointDirection::In => inp = Some(e.address),
            }
        }
        i += 1;
    }
    assert(eps@.subrange(0, eps@.len() as int) =~= eps@);
    match (out, inp) {
        (Some(o), Some(n)) => Ok(UsbEndpoints { endpoint_out: o, endpoint_in: n }),
        _ => Err(PrinterError::EndpointNotFound),
    }
}

/// The printers that the spooler enumerated, without those whose name is
/// empty, in order. Enumeration shows no dialog, so listing is silent.
pub fn list_windows_printers_silent(enumerated: &Vec<String>) -> (r: Vec<String>)
    ensures
        names_view(r@) == named_only(names_view(enumerated@)),
{
    let mut r: Vec<String> = Vec::new();
    let mut i: usize = 0;
    while i < enumerated.len()
        invariant
            0 <= i <= enumerated@.len(),
            names_view(r@) == named_only(names_view(enumerated@.subrange(0, i as int))),
        decreases enumerated@.len() - i,
    {
        let name = &enumerated[i];
        assert(names_view(enumerated@.subrange(0, i + 1)).drop_last() =~= names_view(
            enumerated@.subrange(0, i as int),
        ));
        if name.as_str().unicode_len() > 0 {
            r.push(name.clone());
            assert(names_view(r@) =~= named_only(names_view(enumerated@.subrange(0, i as int))).push(
                name@,
            ));
        }
        i += 1;
    }
    assert(enumerated@.subrange(0, enumerated@.len() as int) =~= enumerated@);
    r
}

/// Whether two strings hold the same characters.
pub fn same_text(a: &str, b: &str) -> (r: bool)
    ensures
        r == (a@ == b@),
{
    let n = a.unicode_len();
    if n != b.unicode_len() {
        return false;
    }
    let mut i: usize = 0;
    while i < n
        invariant
            n == a@.len(),
            n == b@.len(),
            0 <= i <= n,
            forall|j: int| 0 <= j < i ==> a@[j] == b@[j],
        decreases n - i,
    {
        if a.get_char(i) != b.get_char(i) {
            return false;
        }
        i += 1;
    }
    assert(a@ =~= b@);
    true
}

fn position_of(available: &Vec<String>, name: &str) -> (r: Option<usize>)
    ensures
        r is Some <==> names_view(available@).contains(name@),
        r is Some ==> r->Some_0 < available@.len() && available@[r->Some_0 as int]@ == name@,
{
    let mut i: usize = 0;
    while i < available.len()
        invariant
            0 <= i <= available@.len(),
            forall|j: int| 0 <= j < i ==> (#[trigger] available@[j])@ != name@,
        decreases available@.len() - i,
    {
        if same_text(available[i].as_str(), name) {
            assert(names_view(available@)[i as int] == name@);
            return Some(i);
        }
        i += 1;
    }
    assert forall|j: int| 0 <= j < names_view(available@).len() implies names_view(
        available@,
    )[j] != name@ by {
        assert(names_view(available@)[j] == available@[j]@);
    }
    None
}

/// The printer to connect to: the requested one, which must be installed,
/// or the first installed one where none is requested. `DeviceNotFound`
/// where none is installed or the requested one is not.
pub fn select_printer(available: &Vec<String>, requested: Option<&str>) -> (r: Result<
    String,
    PrinterError,
>)
    ensures
        string_result_chars(r) == strict_choice(names_view(available@), opt_chars(requested)),
{
    if available.len() == 0 {
        return Err(PrinterError::DeviceNotFound);
    }
    assert(names_view(available@)[0] == available@[0]@);
    match requested {
        None => Ok(available[0].clone()),
        Some(n) => match position_of(available, n) {
            Some(i) => Ok(available[i].clone()),
            None => Err(PrinterError::DeviceNotFound),
        },
    }
}

/// The printer to print on: the requested one where it is installed, else
/// the first installed one. `DeviceNotFound` where none is installed.
pub fn select_printer_or_first(available: &Vec<String>, requested: Option<&str>) -> (r: Result<
    String,
    PrinterError,
>)
    ensures
        string_result_chars(r) == lenient_choice(names_view(available@), opt_chars(requested)),
{
    if available.len() == 0 {
        return Err(PrinterError::DeviceNotFound);
    }
    assert(names_view(available@)[0] == available@[0]@);
    match requested {
        None => Ok(available[0].clone()),
        Some(n) => match position_of(available, n) {
            Some(i) => Ok(available[i].clone()),
            None => Ok(available[0].clone()),
        },
    }
}

} // verus!
