//! Command streams for the label printers: up to three labels side by side,
//! each with the company name, the short product name, the product code and
//! an EAN-13 barcode.
//!
//! Text goes into the stream as a quoted literal. Text that holds a double
//! quote or a control character would break the stream, so the encoder
//! refuses it with `InvalidInput` instead of sending a broken command; it
//! produces a whole stream or none.
use crate::config::{config_in_range, Dialect, PrinterConfig};
use crate::error::PrinterError;
use vstd::prelude::*;
use vstd::string::StringSliceAdditionalSpecFns;
use vstd::utf8::{encode_scalar, encode_utf8};

verus! {

/// Left margin of the first label, in dots (1.5 mm).
pub const LABEL_MARGIN: u32 = 12;

/// Width of one label, in dots (33 mm).
pub const LABEL_WIDTH: u32 = 264;

/// Gap between two labels, in dots (2 mm).
pub const LABEL_GAP: u32 = 16;

/// How far the fields stand in from the left edge of their label, in dots.
pub const TEXT_INSET: u32 = 5;

/// How many labels fit side by side.
pub const MAX_LABELS: usize = 3;

/// What one label shows.
#[derive(Clone, Debug)]
pub struct LabelData {
    pub company: String,
    pub name_short: String,
    pub product_code: String,
    pub barcode: String,
}

/// The decimal digits of `n`, as ASCII bytes.
pub open spec fn dec(n: nat) -> Seq<u8>
    decreases n,
{
    if n < 10 {
        seq![(n + 48) as u8]
    } else {
        dec(n / 10).push((n % 10 + 48) as u8)
    }
}

/// The UTF-8 bytes of a string.
pub open spec fn text_bytes(s: String) -> Seq<u8> {
    encode_utf8(s@)
}

/// A byte that may stand inside a quoted literal: no control character and
/// no double quote.
pub open spec fn is_plain_byte(c: u8) -> bool {
    c >= 32 && c != 34 && c != 127
}

pub open spec fn is_plain_text(b: Seq<u8>) -> bool {
    forall|i: int| 0 <= i < b.len() ==> #[trigger] is_plain_byte(b[i])
}

/// A character that may stand inside a quoted literal.
pub open spec fn is_plain_char(c: char) -> bool {
    c as u32 >= 32 && c != '"' && c as u32 != 127
}

proof fn lemma_marked_bytes_high(y: u8)
    by (bit_vector)
    ensures
        (0x80u8 | y) >= 128u8,
        (0xC0u8 | y) >= 128u8,
        (0xE0u8 | y) >= 128u8,
        (0xF0u8 | y) >= 128u8,
{
}

proof fn lemma_ascii_byte(c: u32)
    by (bit_vector)
    requires
        c <= 0x7F,
    ensures
        (c & 0x7F) == c,
{
}

proof fn lemma_scalar_plain(c: char)
    requires
        is_plain_char(c),
    ensures
        is_plain_text(encode_scalar(c as u32)),
{
    let v = c as u32;
    if v <= 0x7F {
        lemma_ascii_byte(v);
    } else {
        lemma_marked_bytes_high(((v >> 6) & 0x1F) as u8);
        lemma_marked_bytes_high(((v >> 12) & 0x0F) as u8);
        lemma_marked_bytes_high(((v >> 18) & 0x7) as u8);
        lemma_marked_bytes_high((v & 0x3F) as u8);
        lemma_marked_bytes_high(((v >> 6) & 0x3F) as u8);
        lemma_marked_bytes_high(((v >> 12) & 0x3F) as u8);
    }
}

/// Text made of plain characters is plain in UTF-8 as well: the bytes of a
/// character beyond ASCII all have the high bit set.
pub proof fn lemma_plain_chars_plain_bytes(s: Seq<char>)
    requires
        forall|i: int| 0 <= i < s.len() ==> #[trigger] is_plain_char(s[i]),
    ensures
        is_plain_text(encode_utf8(s)),
    decreases s.len(),
{
    if s.len() > 0 {
        lemma_scalar_plain(s[0]);
        let rest = s.drop_first();
        assert forall|i: int| 0 <= i < rest.len() implies #[trigger] is_plain_char(rest[i]) by {
            assert(rest[i] == s[i + 1]);
        }
        lemma_plain_chars_plain_bytes(rest);
        let head = encode_scalar(s[0] as u32);
        let b = encode_utf8(s);
        assert(b =~= head + encode_utf8(rest));
        assert forall|i: int| 0 <= i < b.len() implies #[trigger] is_plain_byte(b[i]) by {
            if i < head.len() {
                assert(b[i] == head[i]);
            } else {
                assert(b[i] == encode_utf8(rest)[i - head.len()]);
            }
        }
    }
}

pub open spec fn label_is_plain(l: LabelData) -> bool {
    &&& is_plain_text(text_bytes(l.company))
    &&& is_plain_text(text_bytes(l.name_short))
    &&& is_plain_text(text_bytes(l.product_code))
    &&& is_plain_text(text_bytes(l.barcode))
}

/// A batch that the encoder accepts: settings in range, one to three slots,
/// and plain text on every label. An empty slot leaves its place blank.
pub open spec fn batch_is_valid(config: PrinterConfig, labels: Seq<Option<LabelData>>) -> bool {
    &&& config_in_range(config)
    &&& 1 <= labels.len() <= MAX_LABELS
    &&& forall|i: int|
        0 <= i < labels.len() && (#[trigger] labels[i]) is Some ==> label_is_plain(
            labels[i]->Some_0,
        )
}

/// Left edges of three labels side by side.
pub open spec fn label_offsets(margin: int, width: int, gap: int) -> (int, int, int) {
    (margin, margin + width + gap, margin + 2 * (width + gap))
}

/// Where the fields of the label in slot `i` start.
pub open spec fn slot_x(i: int) -> nat {
    let o = label_offsets(LABEL_MARGIN as int, LABEL_WIDTH as int, LABEL_GAP as int);
    (if i == 0 {
        o.0
    } else if i == 1 {
        o.1
    } else {
        o.2
    } + TEXT_INSET) as nat
}

/// A text field: position, rotation 0, font, single size, normal print.
pub open spec fn text_field(x: nat, y: nat, font: nat, t: Seq<u8>) -> Seq<u8> {
    "A".spec_bytes() + dec(x) + ",".spec_bytes() + dec(y) + ",0,".spec_bytes() + dec(font)
        + ",1,1,N,\"".spec_bytes() + t + "\"\r\n".spec_bytes()
}

/// An EAN-13 barcode field with its digits printed below it.
pub open spec fn barcode_field(x: nat, t: Seq<u8>) -> Seq<u8> {
    "B".spec_bytes() + dec(x) + ",95,0,1,2,6,45,B,\"".spec_bytes() + t + "\"\r\n".spec_bytes()
}

/// The fields of one label whose left edge is `x`.
pub open spec fn label_block(x: nat, l: LabelData) -> Seq<u8> {
    text_field(x, 15, 3, text_bytes(l.company)) + text_field(x, 45, 2, text_bytes(l.name_short))
        + text_field(x, 70, 2, text_bytes(l.product_code)) + barcode_field(
        x,
        text_bytes(l.barcode),
    )
}

/// What slot `i` adds to the stream.
pub open spec fn slot_block(i: int, slot: Option<LabelData>) -> Seq<u8> {
    match slot {
        Some(l) => label_block(slot_x(i), l),
        None => Seq::empty(),
    }
}

/// The fields of all slots, left to right.
pub open spec fn labels_body(labels: Seq<Option<LabelData>>) -> Seq<u8>
    decreases labels.len(),
{
    if labels.len() == 0 {
        Seq::empty()
    } else {
        labels_body(labels.drop_last()) + slot_block(labels.len() - 1, labels.last())
    }
}

/// The setup at the start of a stream.
pub open spec fn stream_header(dialect: Dialect, c: PrinterConfig) -> Seq<u8> {
    match dialect {
        Dialect::Ppla => "N\r\nZN\r\nq".spec_bytes() + dec(c.width as nat) + "\r\nQ".spec_bytes()
            + dec(c.height as nat) + ",25\r\nO\r\nJF\r\nZ0\r\n".spec_bytes(),
        Dialect::Pplb => "N\r\nQ".spec_bytes() + dec(c.height as nat) + ",24\r\nq".spec_bytes()
            + dec(c.width as nat) + "\r\nS".spec_bytes() + dec(c.speed as nat) + "\r\nD".spec_bytes()
            + dec(c.darkness as nat) + "\r\n".spec_bytes(),
    }
}

/// The print command that ends a stream: one copy.
pub open spec fn stream_footer() -> Seq<u8> {
    "P1\r\n".spec_bytes()
}

/// The whole stream for a batch of labels.
pub open spec fn label_stream(
    dialect: Dialect,
    c: PrinterConfig,
    labels: Seq<Option<LabelData>>,
) -> Seq<u8> {
    stream_header(dialect, c) + labels_body(labels) + stream_footer()
}

/// The stream for a single line of text on one label, as the direct USB
/// path prints it.
pub open spec fn text_label_stream(c: PrinterConfig, t: Seq<u8>) -> Seq<u8> {
    "Q".spec_bytes() + dec(c.height as nat) + ",24\r\nq".spec_bytes() + dec(c.width as nat)
        + "\r\nS".spec_bytes() + dec(c.speed as nat) + "\r\nD".spec_bytes() + dec(
        c.darkness as nat,
    ) + "\r\nZT\r\n".spec_bytes() + text_field(50, 50, 3, t) + stream_footer()
}

fn push_bytes(out: &mut Vec<u8>, b: &[u8])
    ensures
        final(out)@ == old(out)@ + b@,
{
    let mut i: usize = 0;
    while i < b.len()
        invariant
            0 <= i <= b@.len(),
            out@ == old(out)@ + b@.subrange(0, i as int),
        decreases b@.len() - i,
    {
        out.push(b[i]);
        i += 1;
        assert(out@ =~= old(out)@ + b@.subrange(0, i as int));
    }
    assert(b@.subrange(0, b@.len() as int) =~= b@);
}

pub(crate) fn push_str(out: &mut Vec<u8>, s: &str)
    ensures
        final(out)@ == old(out)@ + s.spec_bytes(),
{
    push_bytes(out, s.as_bytes());
}

fn push_text(out: &mut Vec<u8>, s: &String)
    ensures
        final(out)@ == old(out)@ + text_bytes(*s),
{
    push_bytes(out, s.as_str().as_bytes());
}

/// Appends the decimal digits of `n`.
pub fn push_decimal(out: &mut Vec<u8>, n: u32)
    ensures
        final(out)@ == old(out)@ + dec(n as nat),
    decreases n,
{
    if n >= 10 {
        push_decimal(out, n / 10);
    }
    out.push(((n % 10) as u8) + 48u8);
    assert(out@ =~= old(out)@ + dec(n as nat));
}

/// Whether a byte string holds no control character and no double quote.
fn bytes_are_plain(b: &[u8]) -> (r: bool)
    ensures
        r == is_plain_text(b@),
{
    let mut i: usize = 0;
    while i < b.len()
        invariant
            0 <= i <= b@.len(),
            forall|j: int| 0 <= j < i ==> #[trigger] is_plain_byte(b@[j]),
        decreases b@.len() - i,
    {
        let c = b[i];
        if c < 32 || c == 34 || c == 127 {
            assert(!is_plain_byte(b@[i as int]));
            return false;
        }
        i += 1;
    }
    true
}

/// Whether a string may stand inside a quoted literal of a command.
pub fn text_is_plain(s: &str) -> (r: bool)
    ensures
        r == is_plain_text(s.spec_bytes()),
{
    bytes_are_plain(s.as_bytes())
}

fn label_text_is_plain(l: &LabelData) -> (r: bool)
    ensures
        r == label_is_plain(*l),
{
    text_is_plain(l.company.as_str()) && text_is_plain(l.name_short.as_str()) && text_is_plain(
        l.product_code.as_str(),
    ) && text_is_plain(l.barcode.as_str())
}

/// The left edges of three labels of `width` dots, the first at `margin`,
/// with `gap` dots between neighbours.
pub fn label_x_offsets(margin: u32, width: u32, gap: u32) -> (r: (u32, u32, u32))
    requires
        margin + 2 * (width + gap) <= u32::MAX,
    ensures
        (r.0 as int, r.1 as int, r.2 as int) == label_offsets(
            margin as int,
            width as int,
            gap as int,
        ),
{
    (margin, margin + width + gap, margin + 2 * (width + gap))
}

/// The three offsets are the same on every call, and they increase
/// strictly wherever a label and its gap take up room.
pub proof fn lemma_offsets_increasing(margin: int, width: int, gap: int)
    requires
        width + gap > 0,
    ensures
        label_offsets(margin, width, gap).0 < label_offsets(margin, width, gap).1,
        label_offsets(margin, width, gap).1 < label_offsets(margin, width, gap).2,
        label_offsets(margin, width, gap).1 - label_offsets(margin, width, gap).0
            == label_offsets(margin, width, gap).2 - label_offsets(margin, width, gap).1,
{
}

fn push_text_field(out: &mut Vec<u8>, x: u32, y: u32, font: u32, t: &String)
    ensures
        final(out)@ == old(out)@ + text_field(x as nat, y as nat, font as nat, text_bytes(*t)),
{
    push_str(out, "A");
    push_decimal(out, x);
    push_str(out, ",");
    push_decimal(out, y);
    push_str(out, ",0,");
    push_decimal(out, font);
    push_str(out, ",1,1,N,\"");
    push_text(out, t);
    push_str(out, "\"\r\n");
    assert(out@ =~= old(out)@ + text_field(x as nat, y as nat, font as nat, text_bytes(*t)));
}

fn push_barcode_field(out: &mut Vec<u8>, x: u32, t: &String)
    ensures
        final(out)@ == old(out)@ + barcode_field(x as nat, text_bytes(*t)),
{
    push_str(out, "B");
    push_decimal(out, x);
    push_str(out, ",95,0,1,2,6,45,B,\"");
    push_text(out, t);
    push_str(out, "\"\r\n");
    assert(out@ =~= old(out)@ + barcode_field(x as nat, text_bytes(*t)));
}

fn push_label(out: &mut Vec<u8>, x: u32, l: &LabelData)
    ensures
        final(out)@ == old(out)@ + label_block(x as nat, *l),
{
    push_text_field(out, x, 15, 3, &l.company);
    push_text_field(out, x, 45, 2, &l.name_short);
    push_text_field(out, x, 70, 2, &l.product_code);
    push_barcode_field(out, x, &l.barcode);
    assert(out@ =~= old(out)@ + label_block(x as nat, *l));
}

fn push_slot(out: &mut Vec<u8>, x: u32, slot: &Option<LabelData>)
    ensures
        final(out)@ == old(out)@ + match *slot {
            Some(l) => label_block(x as nat, l),
            None => Seq::empty(),
        },
{
    match slot {
        Some(l) => push_label(out, x, l),
        None => {
            assert(out@ =~= old(out)@ + Seq::<u8>::empty());
        },
    }
}

fn push_header(out: &mut Vec<u8>, dialect: Dialect, c: &PrinterConfig)
    ensures
        final(out)@ == old(out)@ + stream_header(dialect, *c),
{
    match dialect {
        Dialect::Ppla => {
            push_str(out, "N\r\nZN\r\nq");
            push_decimal(out, c.width);
            push_str(out, "\r\nQ");
            push_decimal(out, c.height);
            push_str(out, ",25\r\nO\r\nJF\r\nZ0\r\n");
        },
        Dialect::Pplb => {
            push_str(out, "N\r\nQ");
            push_decimal(out, c.height);
            push_str(out, ",24\r\nq");
            push_decimal(out, c.width);
            push_str(out, "\r\nS");
            push_decimal(out, c.speed as u32);
            push_str(out, "\r\nD");
            push_decimal(out, c.darkness as u32);
            push_str(out, "\r\n");
        },
    }
    assert(out@ =~= old(out)@ + stream_header(dialect, *c));
}

/// The command stream that prints a batch of up to three labels side by
/// side: the dialect's setup, the fields of each filled slot at that slot's
/// offset, and one print command. A batch that breaks `batch_is_valid`
/// gives `InvalidInput` and no stream.
pub fn encode_label_batch(
    dialect: Dialect,
    config: &PrinterConfig,
    labels: &Vec<Option<LabelData>>,
) -> (r: Result<Vec<u8>, PrinterError>)
    ensures
        batch_is_valid(*config, labels@) ==> r is Ok && r->Ok_0@ == label_stream(
            dialect,
            *config,
            labels@,
        ),
        !batch_is_valid(*config, labels@) ==> r == Err::<Vec<u8>, PrinterError>(
            PrinterError::InvalidInput,
        ),
{
    if !(1 <= config.darkness && config.darkness <= 15 && 1 <= config.speed && config.speed <= 4) {
        return Err(PrinterError::InvalidInput);
    }
    let n = labels.len();
    if n < 1 || n > MAX_LABELS {
        return Err(PrinterError::InvalidInput);
    }
    let mut i: usize = 0;
    while i < n
        invariant
            n == labels@.len(),
            0 <= i <= n,
            forall|j: int|
                0 <= j < i && (#[trigger] labels@[j]) is Some ==> label_is_plain(
                    labels@[j]->Some_0,
                ),
        decreases n - i,
    {
        match &labels[i] {
            Some(l) => {
                if !label_text_is_plain(l) {
                    return Err(PrinterError::InvalidInput);
                }
            },
            None => {},
        }
        i += 1;
    }
    let mut out: Vec<u8> = Vec::new();
    push_header(&mut out, dialect, config);
    let (x0, x1, x2) = label_x_offsets(LABEL_MARGIN, LABEL_WIDTH, LABEL_GAP);
    let mut k: usize = 0;
    while k < n
        invariant
            n == labels@.len(),
            n <= MAX_LABELS,
            0 <= k <= n,
            (x0 as int, x1 as int, x2 as int) == label_offsets(
                LABEL_MARGIN as int,
                LABEL_WIDTH as int,
                LABEL_GAP as int,
            ),
            out@ == stream_header(dialect, *config) + labels_body(labels@.subrange(0, k as int)),
        decreases n - k,
    {
        let left = if k == 0 {
            x0
        } else if k == 1 {
            x1
        } else {
            x2
        };
        let x = left + TEXT_INSET;
        assert(x as nat == slot_x(k as int));
        push_slot(&mut out, x, &labels[k]);
        assert(labels@.subrange(0, k + 1).drop_last() =~= labels@.subrange(0, k as int));
        k += 1;
    }
    assert(labels@.subrange(0, n as int) =~= labels@);
    push_str(&mut out, "P1\r\n");
    assert(out@ =~= label_stream(dialect, *config, labels@));
    Ok(out)
}

/// The command stream for one label that shows a single line of text, with
/// the height, width, speed and darkness of `config`.
pub fn encode_text_label(config: &PrinterConfig, text: &str) -> (r: Result<Vec<u8>, PrinterError>)
    ensures
        config_in_range(*config) && is_plain_text(text.spec_bytes()) ==> r is Ok && r->Ok_0@
            == text_label_stream(*config, text.spec_bytes()),
        !(config_in_range(*config) && is_plain_text(text.spec_bytes())) ==> r == Err::<
            Vec<u8>,
            PrinterError,
        >(PrinterError::InvalidInput),
{
    if !(1 <= config.darkness && config.darkness <= 15 && 1 <= config.speed && config.speed <= 4) {
        return Err(PrinterError::InvalidInput);
    }
    if !text_is_plain(text) {
        return Err(PrinterError::InvalidInput);
    }
    let mut out: Vec<u8> = Vec::new();
    push_str(&mut out, "Q");
    push_decimal(&mut out, config.height);
    push_str(&mut out, ",24\r\nq");
    push_decimal(&mut out, config.width);
    push_str(&mut out, "\r\nS");
    push_decimal(&mut out, config.speed as u32);
    push_str(&mut out, "\r\nD");
    push_decimal(&mut out, config.darkness as u32);
    push_str(&mut out, "\r\nZT\r\n");
    push_str(&mut out, "A");
    push_decimal(&mut out, 50);
    push_str(&mut out, ",");
    push_decimal(&mut out, 50);
    push_str(&mut out, ",0,");
    push_decimal(&mut out, 3);
    push_str(&mut out, ",1,1,N,\"");
    push_str(&mut out, text);
    push_str(&mut out, "\"\r\n");
    push_str(&mut out, "P1\r\n");
    assert(out@ =~= text_label_stream(*config, text.spec_bytes()));
    Ok(out)
}

} // verus!
