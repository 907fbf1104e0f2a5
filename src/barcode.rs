//! EAN-13 barcodes built from a nine-digit prefix, a three-digit running
//! sequence and a check digit, and the rules on product codes.
use crate::error::PrinterError;
use vstd::prelude::*;
use vstd::string::StringExecFns;

verus! {

/// The nine-digit manufacturer prefix of the catalog's barcodes.
pub const BARCODE_PREFIX: &'static str = "789846581";

/// A decimal digit character.
pub open spec fn is_digit_char(c: char) -> bool {
    '0' <= c && c <= '9'
}

/// The value of a digit character.
pub open spec fn digit_value(c: char) -> int {
    c as int - '0' as int
}

/// The character of a digit value in `0..10`.
pub open spec fn digit_char(d: int) -> char {
    ((d + 48) as u8) as char
}

/// `s` has exactly `n` characters, all of them digits.
pub open spec fn is_digit_string(s: Seq<char>, n: nat) -> bool {
    &&& s.len() == n
    &&& forall|i: int| 0 <= i < s.len() ==> #[trigger] is_digit_char(s[i])
}

/// The contribution of the digit at position `i`: weight 1 at even
/// positions, 3 at odd ones.
pub open spec fn weighted_digit(i: int, c: char) -> int {
    if i % 2 == 0 {
        digit_value(c)
    } else {
        3 * digit_value(c)
    }
}

/// The weighted digit sum of EAN-13 over the whole of `s`.
pub open spec fn weighted_sum(s: Seq<char>) -> int
    decreases s.len(),
{
    if s.len() == 0 {
        0
    } else {
        weighted_sum(s.drop_last()) + weighted_digit(s.len() - 1, s.last())
    }
}

/// The check digit of a twelve-digit payload.
pub open spec fn ean13_check_value(payload: Seq<char>) -> int {
    (10 - weighted_sum(payload) % 10) % 10
}

/// The payload followed by its check digit.
pub open spec fn ean13_complete(payload: Seq<char>) -> Seq<char> {
    payload.push(digit_char(ean13_check_value(payload)))
}

/// A number below 1000 written with three digits, zeros in front.
pub open spec fn pad3(n: int) -> Seq<char> {
    seq![digit_char(n / 100), digit_char((n / 10) % 10), digit_char(n % 10)]
}

/// The barcode for a prefix and a sequence number.
pub open spec fn barcode_for(prefix: Seq<char>, sequence: int) -> Seq<char> {
    ean13_complete(prefix + pad3(sequence))
}

/// The sequence number held by a barcode: the three characters after the
/// prefix read as a number, or 0 when the barcode is too short or they are
/// not three digits.
pub open spec fn sequence_of(barcode: Seq<char>) -> int {
    if barcode.len() >= 12 && is_digit_char(barcode[9]) && is_digit_char(barcode[10])
        && is_digit_char(barcode[11]) {
        100 * digit_value(barcode[9]) + 10 * digit_value(barcode[10]) + digit_value(barcode[11])
    } else {
        0
    }
}

/// The characters of an optional string.
pub open spec fn opt_chars(s: Option<&str>) -> Option<Seq<char>> {
    match s {
        Some(t) => Some(t@),
        None => None,
    }
}

/// The sequence in use: that of the last barcode, or 0 when there is none.
pub open spec fn current_sequence(last: Option<Seq<char>>) -> int {
    match last {
        Some(b) => sequence_of(b),
        None => 0,
    }
}

/// The sequence that the next barcode takes.
pub open spec fn next_sequence(last: Option<Seq<char>>) -> int {
    current_sequence(last) + 1
}

/// Unicode white space, the characters that `str::trim` removes.
pub open spec fn is_white_space(c: char) -> bool {
    ('\u{9}' <= c && c <= '\u{d}') || c == ' ' || c == '\u{85}' || c == '\u{a0}'
        || c == '\u{1680}' || ('\u{2000}' <= c && c <= '\u{200a}') || c == '\u{2028}'
        || c == '\u{2029}' || c == '\u{202f}' || c == '\u{205f}' || c == '\u{3000}'
}

/// Nothing but white space (or nothing at all).
pub open spec fn is_blank(s: Seq<char>) -> bool {
    forall|i: int| 0 <= i < s.len() ==> #[trigger] is_white_space(s[i])
}

/// What `validate_product_code` returns.
pub open spec fn product_code_check(code: Seq<char>) -> Result<(), PrinterError> {
    if is_blank(code) {
        Err(PrinterError::EmptyProductCode)
    } else if code.len() > 4 {
        Err(PrinterError::ProductCodeTooLong)
    } else {
        Ok(())
    }
}

pub fn is_digit(c: char) -> (r: bool)
    ensures
        r == is_digit_char(c),
{
    '0' <= c && c <= '9'
}

fn is_space(c: char) -> (r: bool)
    ensures
        r == is_white_space(c),
{
    ('\u{9}' <= c && c <= '\u{d}') || c == ' ' || c == '\u{85}' || c == '\u{a0}' || c == '\u{1680}'
        || ('\u{2000}' <= c && c <= '\u{200a}') || c == '\u{2028}' || c == '\u{2029}' || c
        == '\u{202f}' || c == '\u{205f}' || c == '\u{3000}'
}

pub fn digit_to_char(d: u32) -> (r: char)
    requires
        d < 10,
    ensures
        r == digit_char(d as int),
        is_digit_char(r),
{
    ((d as u8) + 48u8) as char
}

/// A one-character string holding the digit `d`.
fn digit_str(d: u32) -> (r: &'static str)
    requires
        d < 10,
    ensures
        r@ == seq![digit_char(d as int)],
{
    if d == 0 {
        proof { reveal_strlit("0"); }
        "0"
    } else if d == 1 {
        proof { reveal_strlit("1"); }
        "1"
    } else if d == 2 {
        proof { reveal_strlit("2"); }
        "2"
    } else if d == 3 {
        proof { reveal_strlit("3"); }
        "3"
    } else if d == 4 {
        proof { reveal_strlit("4"); }
        "4"
    } else if d == 5 {
        proof { reveal_strlit("5"); }
        "5"
    } else if d == 6 {
        proof { reveal_strlit("6"); }
        "6"
    } else if d == 7 {
        proof { reveal_strlit("7"); }
        "7"
    } else if d == 8 {
        proof { reveal_strlit("8"); }
        "8"
    } else {
        proof { reveal_strlit("9"); }
        "9"
    }
}

/// The check digit of `code` as a number, or `InvalidInput` unless `code` is
/// twelve digits.
fn check_value(code: &str) -> (r: Result<u32, PrinterError>)
    ensures
        is_digit_string(code@, 12) ==> r == Ok::<u32, PrinterError>(
            ean13_check_value(code@) as u32,
        ),
        is_digit_string(code@, 12) ==> 0 <= ean13_check_value(code@) < 10,
        !is_digit_string(code@, 12) ==> r == Err::<u32, PrinterError>(PrinterError::InvalidInput),
{
    let n = code.unicode_len();
    if n != 12 {
        return Err(PrinterError::InvalidInput);
    }
    let mut sum: u32 = 0;
    let mut i: usize = 0;
    while i < 12
        invariant
            0 <= i <= 12,
            code@.len() == 12,
            forall|j: int| 0 <= j < i ==> #[trigger] is_digit_char(code@[j]),
            sum == weighted_sum(code@.subrange(0, i as int)),
            sum <= 27 * i,
        decreases 12 - i,
    {
        let c = code.get_char(i);
        if !is_digit(c) {
            return Err(PrinterError::InvalidInput);
        }
        let d = (c as u32) - 48u32;
        let term: u32 = if i % 2 == 0 {
            d
        } else {
            3 * d
        };
        assert(code@.subrange(0, i + 1).drop_last() =~= code@.subrange(0, i as int));
        sum = sum + term;
        i += 1;
    }
    assert(code@.subrange(0, 12) =~= code@);
    Ok((10 - sum % 10) % 10)
}

/// The EAN-13 check digit of a twelve-digit payload: digits at even
/// positions weigh 1, at odd positions 3, and the check digit brings the
/// weighted sum to a multiple of ten.
pub fn calculate_ean13_check_digit(code: &str) -> (r: Result<char, PrinterError>)
    ensures
        is_digit_string(code@, 12) ==> r == Ok::<char, PrinterError>(
            digit_char(ean13_check_value(code@)),
        ),
        !is_digit_string(code@, 12) ==> r == Err::<char, PrinterError>(PrinterError::InvalidInput),
{
    match check_value(code) {
        Ok(v) => Ok(digit_to_char(v)),
        Err(e) => Err(e),
    }
}

/// The sequence number held by the last barcode, 0 where there is none or it
/// holds no number.
pub fn get_current_sequence(last_barcode: Option<&str>) -> (r: i32)
    ensures
        r == current_sequence(opt_chars(last_barcode)),
        0 <= r <= 999,
{
    match last_barcode {
        None => 0,
        Some(b) => {
            let n = b.unicode_len();
            if n < 12 {
                return 0;
            }
            let c0 = b.get_char(9);
            let c1 = b.get_char(10);
            let c2 = b.get_char(11);
            if is_digit(c0) && is_digit(c1) && is_digit(c2) {
                let v = 100 * ((c0 as u32) - 48) + 10 * ((c1 as u32) - 48) + ((c2 as u32) - 48);
                v as i32
            } else {
                0
            }
        },
    }
}

/// The sequence number for the next barcode: one past that of the last
/// barcode, 1 where there is none. Numbers end at 999: past it the prefix
/// is exhausted.
pub fn get_next_sequence(last_barcode: Option<&str>) -> (r: Result<i32, PrinterError>)
    ensures
        next_sequence(opt_chars(last_barcode)) <= 999 ==> r == Ok::<i32, PrinterError>(
            next_sequence(opt_chars(last_barcode)) as i32,
        ),
        next_sequence(opt_chars(last_barcode)) > 999 ==> r == Err::<i32, PrinterError>(
            PrinterError::SequenceExhausted,
        ),
        r is Ok ==> 1 <= r->Ok_0 <= 999,
{
    let current = get_current_sequence(last_barcode);
    let next = current + 1;
    if next > 999 {
        Err(PrinterError::SequenceExhausted)
    } else {
        Ok(next)
    }
}

proof fn lemma_pad3_digits(n: int)
    requires
        0 <= n <= 999,
    ensures
        is_digit_string(pad3(n), 3),
{
    let p = pad3(n);
    assert(is_digit_char(p[0]) && is_digit_char(p[1]) && is_digit_char(p[2]));
}

proof fn lemma_payload_digits(prefix: Seq<char>, n: int)
    requires
        0 <= n <= 999,
    ensures
        is_digit_string(prefix + pad3(n), 12) <==> is_digit_string(prefix, 9),
{
    lemma_pad3_digits(n);
    let p = prefix + pad3(n);
    if is_digit_string(prefix, 9) {
        assert forall|i: int| 0 <= i < p.len() implies #[trigger] is_digit_char(p[i]) by {
            if i < 9 {
                assert(p[i] == prefix[i]);
            } else {
                assert(p[i] == pad3(n)[i - 9]);
            }
        }
    }
    if is_digit_string(p, 12) {
        assert forall|i: int| 0 <= i < prefix.len() implies #[trigger] is_digit_char(prefix[i]) by {
            assert(p[i] == prefix[i]);
        }
    }
}

/// The next barcode after `last_barcode` under `prefix`: the prefix, the
/// next sequence number in three digits, and the check digit.
pub fn generate_barcode(last_barcode: Option<&str>, prefix: &str) -> (r: Result<
    String,
    PrinterError,
>)
    ensures
        string_result_chars(r) == barcode_outcome(opt_chars(last_barcode), prefix@),
{
    let sequence = match get_next_sequence(last_barcode) {
        Ok(s) => s as u32,
        Err(e) => return Err(e),
    };
    let ghost n = sequence as int;
    let mut payload = prefix.to_owned();
    payload.append(digit_str(sequence / 100));
    payload.append(digit_str((sequence / 10) % 10));
    payload.append(digit_str(sequence % 10));
    assert(payload@ =~= prefix@ + pad3(n));
    proof {
        lemma_payload_digits(prefix@, n);
    }
    let check = match check_value(payload.as_str()) {
        Ok(v) => v,
        Err(e) => return Err(e),
    };
    payload.append(digit_str(check));
    assert(payload@ =~= barcode_for(prefix@, n));
    Ok(payload)
}

/// Checks a product code: it must hold something besides white space, and
/// at most four characters.
pub fn validate_product_code(product_code: &str) -> (r: Result<(), PrinterError>)
    ensures
        r == product_code_check(product_code@),
{
    let n = product_code.unicode_len();
    let mut i: usize = 0;
    let mut blank = true;
    while i < n
        invariant
            n == product_code@.len(),
            0 <= i <= n,
            blank == (forall|j: int| 0 <= j < i ==> #[trigger] is_white_space(product_code@[j])),
        decreases n - i,
    {
        if !is_space(product_code.get_char(i)) {
            blank = false;
        }
        i += 1;
    }
    if blank {
        Err(PrinterError::EmptyProductCode)
    } else if n > 4 {
        Err(PrinterError::ProductCodeTooLong)
    } else {
        Ok(())
    }
}

/// What `generate_barcode` returns, with the barcode as characters.
pub open spec fn barcode_outcome(last: Option<Seq<char>>, prefix: Seq<char>) -> Result<
    Seq<char>,
    PrinterError,
> {
    if next_sequence(last) > 999 {
        Err(PrinterError::SequenceExhausted)
    } else if !is_digit_string(prefix, 9) {
        Err(PrinterError::InvalidInput)
    } else {
        Ok(barcode_for(prefix, next_sequence(last)))
    }
}

/// What `prepare_new_product` returns, with the barcode as characters.
pub open spec fn new_product_outcome(
    code: Seq<char>,
    code_in_use: bool,
    last: Option<Seq<char>>,
    prefix: Seq<char>,
) -> Result<Seq<char>, PrinterError> {
    if product_code_check(code) is Err {
        Err(product_code_check(code)->Err_0)
    } else if code_in_use {
        Err(PrinterError::DuplicateProductCode)
    } else {
        barcode_outcome(last, prefix)
    }
}

/// A result with its string as characters.
pub open spec fn string_result_chars(r: Result<String, PrinterError>) -> Result<
    Seq<char>,
    PrinterError,
> {
    match r {
        Ok(s) => Ok(s@),
        Err(e) => Err(e),
    }
}

/// The barcode for a new product, from what the catalog knows: whether its
/// code is already taken and the last barcode handed out. The code is
/// checked first, then its uniqueness, then the barcode is made.
pub fn prepare_new_product(
    product_code: &str,
    code_in_use: bool,
    last_barcode: Option<&str>,
    prefix: &str,
) -> (r: Result<String, PrinterError>)
    ensures
        string_result_chars(r) == new_product_outcome(
            product_code@,
            code_in_use,
            opt_chars(last_barcode),
            prefix@,
        ),
{
    match validate_product_code(product_code) {
        Ok(()) => {},
        Err(e) => return Err(e),
    }
    if code_in_use {
        return Err(PrinterError::DuplicateProductCode);
    }
    generate_barcode(last_barcode, prefix)
}

/// What `check_product_update` returns.
pub open spec fn update_outcome(code: Seq<char>, exists: bool, code_in_use: bool) -> Result<
    (),
    PrinterError,
> {
    if product_code_check(code) is Err {
        product_code_check(code)
    } else if !exists {
        Err(PrinterError::ProductNotFound)
    } else if code_in_use {
        Err(PrinterError::DuplicateProductCode)
    } else {
        Ok(())
    }
}

/// Whether a product may take `product_code` in an update, from what the
/// catalog knows: whether the product exists and whether another product
/// uses the code. The code is checked first, then the product, then the
/// uniqueness. The barcode never changes in an update.
pub fn check_product_update(product_code: &str, exists: bool, code_in_use_elsewhere: bool) -> (r:
    Result<(), PrinterError>)
    ensures
        r == update_outcome(product_code@, exists, code_in_use_elsewhere),
{
    match validate_product_code(product_code) {
        Ok(()) => {},
        Err(e) => return Err(e),
    }
    if !exists {
        return Err(PrinterError::ProductNotFound);
    }
    if code_in_use_elsewhere {
        return Err(PrinterError::DuplicateProductCode);
    }
    Ok(())
}

/// Every twelve-digit payload completed with its check digit gives thirteen
/// digits whose weighted sum (weights 1, 3, 1, 3, ...) is a multiple of ten.
pub proof fn lemma_check_digit_completes_sum(payload: Seq<char>)
    requires
        is_digit_string(payload, 12),
    ensures
        is_digit_char(digit_char(ean13_check_value(payload))),
        is_digit_string(ean13_complete(payload), 13),
        weighted_sum(ean13_complete(payload)) % 10 == 0,
{
    let s = ean13_complete(payload);
    let v = ean13_check_value(payload);
    assert(s.drop_last() =~= payload);
    assert(0 <= v < 10);
    assert(digit_value(digit_char(v)) == v);
    assert(weighted_sum(s) == weighted_sum(payload) + v);
    assert forall|i: int| 0 <= i < s.len() implies #[trigger] is_digit_char(s[i]) by {
        if i < 12 {
            assert(s[i] == payload[i]);
        }
    }
}

/// Every barcode that `generate_barcode` can hand out is thirteen digits,
/// and the check digit of its first twelve is its thirteenth.
pub proof fn lemma_generated_barcode_round_trip(last: Option<Seq<char>>, prefix: Seq<char>)
    requires
        barcode_outcome(last, prefix) is Ok,
    ensures
        ({
            let b = barcode_outcome(last, prefix)->Ok_0;
            &&& is_digit_string(b, 13)
            &&& is_digit_string(b.subrange(0, 12), 12)
            &&& digit_char(ean13_check_value(b.subrange(0, 12))) == b[12]
            &&& weighted_sum(b) % 10 == 0
        }),
{
    let n = next_sequence(last);
    let payload = prefix + pad3(n);
    lemma_payload_digits(prefix, n);
    lemma_check_digit_completes_sum(payload);
    let b = barcode_outcome(last, prefix)->Ok_0;
    assert(b.subrange(0, 12) =~= payload);
}

} // verus!
