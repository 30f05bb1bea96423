//! The line framer: a stateful decoder that turns the raw serial byte
//! stream into discrete, bounded text records for the event-stream surface.
//!
//! The accumulation buffer is the `bytes::BytesMut` owned by the framed
//! reader that drives the codec; the codec itself keeps only a scan cursor
//! and the last record id. Each record is one logical line: complete lines
//! are cut at the first line feed, a trailing carriage return is stripped,
//! lines with no delimiter in sight are force-cut at [`LINE_WRAP`] bytes so
//! the buffer stays bounded, and every byte outside printable ASCII renders
//! as an underscore.

use vstd::prelude::*;

use bytes::BytesMut;

verus! {

/// Maximum width of one emitted line; longer stretches without a delimiter
/// are cut into records of exactly this many bytes.
pub const LINE_WRAP: usize = 80;

/// The bytes a `BytesMut` holds, in order.
pub uninterp spec fn bm_bytes(b: BytesMut) -> Seq<u8>;

/// Declares `bytes::BytesMut` so that the codec can take the framed
/// reader's own accumulation buffer; the buffer is read and split only
/// through the wrappers below.
#[verifier::external_type_specification]
#[verifier::external_body]
pub struct ExBytesMut(BytesMut);

/// Relies on `BytesMut::len`: the number of bytes the buffer holds.
#[verifier::external_body]
fn bm_len(b: &BytesMut) -> (n: usize)
    ensures
        n == bm_bytes(*b).len(),
{
    b.len()
}

/// Relies on `BytesMut`'s deref to `[u8]`: a slice of all held bytes.
#[verifier::external_body]
fn bm_slice(b: &BytesMut) -> (s: &[u8])
    ensures
        s@ == bm_bytes(*b),
{
    &b[..]
}

/// Relies on `BytesMut::split_to`: afterwards the buffer holds the bytes
/// from `at` on, and the returned buffer holds the first `at` bytes.
#[verifier::external_body]
fn bm_split_to(b: &mut BytesMut, at: usize) -> (r: BytesMut)
    requires
        at <= bm_bytes(*old(b)).len(),
    ensures
        bm_bytes(r) == bm_bytes(*old(b)).subrange(0, at as int),
        bm_bytes(*final(b)) == bm_bytes(*old(b)).subrange(
            at as int,
            bm_bytes(*old(b)).len() as int,
        ),
{
    b.split_to(at)
}

/// Relies on `String::from_utf8`: bytes below 0x80 are one-byte UTF-8
/// sequences, so they decode to exactly one character each.
#[verifier::external_body]
fn ascii_to_string(bytes: Vec<u8>) -> (r: String)
    requires
        forall|i: int| 0 <= i < bytes@.len() ==> bytes@[i] < 0x80,
    ensures
        r@ == bytes@.map_values(|b: u8| b as char),
{
    match String::from_utf8(bytes) {
        Ok(s) => s,
        Err(_) => String::new(),
    }
}

/// Printable ASCII is everything strictly between the control range and
/// DEL.
pub open spec fn spec_is_printable_ascii(c: char) -> bool {
    0x1f < (c as u32) && (c as u32) < 0x7f
}

/// Whether a character may appear verbatim in a record's text.
pub fn is_printable_ascii(c: char) -> (r: bool)
    ensures
        r == spec_is_printable_ascii(c),
{
    let cu = c as u32;
    cu > 0x1f && cu < 0x7f
}

/// One byte of record text: printable ASCII stands, everything else
/// becomes an underscore.
pub open spec fn spec_sanitize_byte(b: u8) -> u8 {
    if 0x20 <= b && b <= 0x7e {
        b
    } else {
        0x5f
    }
}

fn sanitize_byte(b: u8) -> (r: u8)
    ensures
        r == spec_sanitize_byte(b),
{
    if b >= 0x20 && b <= 0x7e {
        b
    } else {
        0x5f
    }
}

/// A whole line of record text, byte for byte.
pub open spec fn spec_sanitize(s: Seq<u8>) -> Seq<u8> {
    s.map_values(|b: u8| spec_sanitize_byte(b))
}

/// A candidate line with one trailing carriage return stripped, if present.
pub open spec fn spec_strip_cr(s: Seq<u8>) -> Seq<u8> {
    if s.len() > 0 && s.last() == 13 {
        s.drop_last()
    } else {
        s
    }
}

/// Strips one trailing carriage return from a candidate line, if present.
pub fn without_carriage_return(s: &[u8]) -> (r: &[u8])
    ensures
        r@ == spec_strip_cr(s@),
{
    if s.len() > 0 && s[s.len() - 1] == 13 {
        let r = &s[0..s.len() - 1];
        proof {
            assert(r@ =~= s@.drop_last());
        }
        r
    } else {
        s
    }
}

/// The decimal digits of `n`, most significant first.
pub open spec fn spec_dec_digits(n: nat) -> Seq<u8>
    decreases n,
{
    if n < 10 {
        seq![(0x30 + n) as u8]
    } else {
        spec_dec_digits(n / 10).push((0x30 + n % 10) as u8)
    }
}

proof fn lemma_dec_digits_bounds(n: nat)
    ensures
        forall|i: int|
            0 <= i < spec_dec_digits(n).len() ==> 0x30 <= #[trigger] spec_dec_digits(n)[i]
                <= 0x39,
    decreases n,
{
    if n < 10 {
        assert(spec_dec_digits(n) == seq![(0x30 + n) as u8]);
        assert(spec_dec_digits(n)[0] == (0x30 + n) as u8);
    } else {
        lemma_dec_digits_bounds(n / 10);
        assert forall|i: int| 0 <= i < spec_dec_digits(n).len() implies 0x30
            <= #[trigger] spec_dec_digits(n)[i] <= 0x39 by {
            if i < spec_dec_digits(n / 10).len() {
                assert(spec_dec_digits(n)[i] == spec_dec_digits(n / 10)[i]);
            } else {
                assert(spec_dec_digits(n)[i] == (0x30 + n % 10) as u8);
            }
        }
    }
}

fn push_dec_digits(n: u64, out: &mut Vec<u8>)
    ensures
        final(out)@ == old(out)@ + spec_dec_digits(n as nat),
    decreases n,
{
    if n < 10 {
        out.push((0x30 + n) as u8);
        proof {
            assert(out@ =~= old(out)@ + spec_dec_digits(n as nat));
        }
    } else {
        push_dec_digits(n / 10, out);
        out.push((0x30 + n % 10) as u8);
        proof {
            assert(out@ =~= old(out)@ + spec_dec_digits(n as nat));
        }
    }
}

/// The fixed lead of every record: `"retry: 999999\r\nid: "`.
pub open spec fn spec_retry_prefix() -> Seq<u8> {
    seq![
        0x72u8,
        0x65u8,
        0x74u8,
        0x72u8,
        0x79u8,
        0x3au8,
        0x20u8,
        0x39u8,
        0x39u8,
        0x39u8,
        0x39u8,
        0x39u8,
        0x39u8,
        0x0du8,
        0x0au8,
        0x69u8,
        0x64u8,
        0x3au8,
        0x20u8,
    ]
}

/// The separator between the id and the text: `"\r\ndata: "`.
pub open spec fn spec_data_prefix() -> Seq<u8> {
    seq![0x0du8, 0x0au8, 0x64u8, 0x61u8, 0x74u8, 0x61u8, 0x3au8, 0x20u8]
}

/// The record terminator: `"\r\n\r\n"`.
pub open spec fn spec_record_suffix() -> Seq<u8> {
    seq![0x0du8, 0x0au8, 0x0du8, 0x0au8]
}

/// The full record emitted for line `line` under record id `id`, as bytes:
/// `retry: 999999\r\nid: <id>\r\ndata: <sanitized line>\r\n\r\n`.
pub open spec fn spec_record_bytes(id: nat, line: Seq<u8>) -> Seq<u8> {
    spec_retry_prefix() + spec_dec_digits(id) + spec_data_prefix() + spec_sanitize(line)
        + spec_record_suffix()
}

/// The same record as text; every byte of the record is ASCII, so the
/// characters are the bytes themselves.
pub open spec fn spec_record_chars(id: nat, line: Seq<u8>) -> Seq<char> {
    spec_record_bytes(id, line).map_values(|b: u8| b as char)
}

fn render_record(id: u64, line: &[u8]) -> (r: String)
    ensures
        r@ == spec_record_chars(id as nat, line@),
{
    let mut out: Vec<u8> = Vec::new();
    out.push(0x72);
    out.push(0x65);
    out.push(0x74);
    out.push(0x72);
    out.push(0x79);
    out.push(0x3a);
    out.push(0x20);
    out.push(0x39);
    out.push(0x39);
    out.push(0x39);
    out.push(0x39);
    out.push(0x39);
    out.push(0x39);
    out.push(0x0d);
    out.push(0x0a);
    out.push(0x69);
    out.push(0x64);
    out.push(0x3a);
    out.push(0x20);
    proof {
        assert(out@ =~= spec_retry_prefix());
    }
    push_dec_digits(id, &mut out);
    out.push(0x0d);
    out.push(0x0a);
    out.push(0x64);
    out.push(0x61);
    out.push(0x74);
    out.push(0x61);
    out.push(0x3a);
    out.push(0x20);
    proof {
        assert(out@ =~= spec_retry_prefix() + spec_dec_digits(id as nat) + spec_data_prefix());
    }
    let ghost before_line = out@;
    let mut i: usize = 0;
    while i < line.len()
        invariant
            i <= line@.len(),
            out@ == before_line + spec_sanitize(line@.take(i as int)),
        decreases line@.len() - i,
    {
        out.push(sanitize_byte(line[i]));
        proof {
            assert(line@.take(i + 1 as int) =~= line@.take(i as int).push(line@[i as int]));
            assert(spec_sanitize(line@.take(i + 1 as int)) =~= spec_sanitize(
                line@.take(i as int),
            ).push(spec_sanitize_byte(line@[i as int])));
            assert(out@ =~= before_line + spec_sanitize(line@.take(i + 1 as int)));
        }
        i += 1;
    }
    proof {
        assert(line@.take(line@.len() as int) =~= line@);
    }
    out.push(0x0d);
    out.push(0x0a);
    out.push(0x0d);
    out.push(0x0a);
    proof {
        assert(out@ =~= spec_record_bytes(id as nat, line@));
        lemma_dec_digits_bounds(id as nat);
        assert forall|k: int| 0 <= k < out@.len() implies out@[k] < 0x80 by {
            assert(out@ == spec_record_bytes(id as nat, line@));
        }
    }
    ascii_to_string(out)
}

/// The position of the first line feed at or after `from`, if any.
pub open spec fn find_nl(b: Seq<u8>, from: int) -> Option<int>
    recommends
        0 <= from,
    decreases b.len() - from,
{
    if from >= b.len() {
        Option::None
    } else if b[from] == 10 {
        Option::Some(from)
    } else {
        find_nl(b, from + 1)
    }
}

pub proof fn lemma_find_nl(b: Seq<u8>, from: int)
    requires
        0 <= from,
    ensures
        match find_nl(b, from) {
            Option::Some(p) => from <= p < b.len() && b[p] == 10 && (forall|j: int|
                from <= j < p ==> b[j] != 10),
            Option::None => forall|j: int| from <= j < b.len() ==> b[j] != 10,
        },
    decreases b.len() - from,
{
    if from < b.len() && b[from] != 10 {
        lemma_find_nl(b, from + 1);
    }
}

/// If `p` is a line feed and nothing from `from` up to it is one, the scan
/// finds exactly `p`.
pub proof fn lemma_find_nl_exact(b: Seq<u8>, from: int, p: int)
    requires
        0 <= from <= p < b.len(),
        b[p] == 10,
        forall|j: int| from <= j < p ==> b[j] != 10,
    ensures
        find_nl(b, from) == Option::Some(p),
{
    lemma_find_nl(b, from);
    match find_nl(b, from) {
        Option::Some(q) => {
            if q < p {
                assert(b[q] != 10);
            }
            if q > p {
                assert(b[p] != 10);
            }
        },
        Option::None => {
            assert(b[p] != 10);
        },
    }
}

/// If nothing from `from` on is a line feed, the scan finds nothing.
pub proof fn lemma_find_nl_none(b: Seq<u8>, from: int)
    requires
        0 <= from,
        forall|j: int| from <= j < b.len() ==> b[j] != 10,
    ensures
        find_nl(b, from) is None,
{
    lemma_find_nl(b, from);
    if find_nl(b, from) is Some {
        let p = find_nl(b, from)->Some_0;
        assert(b[p] != 10);
    }
}

/// What one decoding pass does to the framer's state and buffer, and which
/// line, if any, it emits.
pub ghost struct StepResult {
    /// The scan cursor after the pass.
    pub cursor: nat,
    /// The record id after the pass; one more than before exactly when a
    /// line was emitted.
    pub id: nat,
    /// The bytes left in the accumulation buffer.
    pub rest: Seq<u8>,
    /// The emitted line, before sanitization, if any.
    pub line: Option<Seq<u8>>,
}

/// One decoding pass over buffer `b` with scan cursor `cursor` and last
/// record id `id`: scan for a line feed from the cursor on; emit nothing if
/// there is none; cut the line there if it comes inside the width bound,
/// stripping one trailing carriage return and skipping empty lines; cut a
/// full-width line if the line feed is out of reach.
pub open spec fn spec_decode_step(cursor: nat, id: nat, b: Seq<u8>) -> StepResult
    decreases b.len(),
    via spec_decode_step_decreases
{
    match find_nl(b, cursor as int) {
        Option::None => StepResult { cursor: b.len(), id, rest: b, line: Option::None },
        Option::Some(p) => if p < LINE_WRAP as int {
            let line = spec_strip_cr(b.subrange(0, p));
            let rest = b.subrange(p + 1, b.len() as int);
            if line.len() == 0 {
                spec_decode_step(0, id, rest)
            } else {
                StepResult { cursor: 0, id: id + 1, rest, line: Option::Some(line) }
            }
        } else {
            StepResult {
                cursor: 0,
                id: id + 1,
                rest: b.subrange(LINE_WRAP as int, b.len() as int),
                line: Option::Some(b.subrange(0, LINE_WRAP as int)),
            }
        },
    }
}

#[via_fn]
proof fn spec_decode_step_decreases(cursor: nat, id: nat, b: Seq<u8>) {
    lemma_find_nl(b, cursor as int);
}

/// The framer: scan cursor and last issued record id. Ids start at 1 with
/// the first emitted record and never repeat within one instance.
#[derive(Clone, Debug, Default)]
pub struct EventCodec {
    next_index: usize,
    id: u64,
}

impl EventCodec {
    /// The scan cursor: everything before it in the accumulation buffer has
    /// already been scanned without finding a line feed.
    pub closed spec fn cursor(&self) -> nat {
        self.next_index as nat
    }

    /// The id of the last emitted record; 0 before the first.
    pub closed spec fn record_id(&self) -> nat {
        self.id as nat
    }

    /// The id of the last emitted record; the next record takes the one
    /// after it. A caller that suspects the id could ever reach the
    /// counter's limit checks here before decoding.
    pub fn last_id(&self) -> (n: u64)
        ensures
            n as nat == self.record_id(),
    {
        self.id
    }

    /// Where in the accumulation buffer the scan stands: everything before
    /// it was already scanned without finding a line feed. Never past the
    /// end of a buffer that only grows between calls.
    pub fn cursor_pos(&self) -> (n: usize)
        ensures
            n as nat == self.cursor(),
    {
        self.next_index
    }

    /// A fresh framer: cursor at the buffer start, no record issued yet.
    pub fn new() -> (c: EventCodec)
        ensures
            c.cursor() == 0,
            c.record_id() == 0,
    {
        EventCodec { next_index: 0, id: 0 }
    }

    /// One decoding pass: exactly [`spec_decode_step`] on the buffer, with
    /// the emitted line, if any, rendered as a record.
    pub fn decode(&mut self, buf: &mut BytesMut) -> (r: Option<String>)
        requires
            old(self).record_id() < u64::MAX,
            old(self).cursor() <= bm_bytes(*old(buf)).len(),
        ensures
            ({
                let step = spec_decode_step(
                    old(self).cursor(),
                    old(self).record_id(),
                    bm_bytes(*old(buf)),
                );
                &&& final(self).cursor() == step.cursor
                &&& final(self).record_id() == step.id
                &&& bm_bytes(*final(buf)) == step.rest
                &&& match step.line {
                    Option::Some(line) => match r {
                        Option::Some(s) => s@ == spec_record_chars(step.id, line),
                        Option::None => false,
                    },
                    Option::None => r is None,
                }
            }),
    {
        loop
            invariant
                self.id == old(self).id,
                self.id < u64::MAX,
                self.next_index as nat <= bm_bytes(*buf).len(),
                spec_decode_step(self.cursor(), self.record_id(), bm_bytes(*buf))
                    == spec_decode_step(
                    old(self).cursor(),
                    old(self).record_id(),
                    bm_bytes(*old(buf)),
                ),
            decreases bm_bytes(*buf).len(),
        {
            let ghost b = bm_bytes(*buf);
            let ghost c = self.cursor();
            let len = bm_len(buf);
            let mut i: usize = self.next_index;
            {
                let s = bm_slice(buf);
                while i < len && s[i] != 10
                    invariant
                        self.next_index <= i <= len,
                        len == s@.len(),
                        s@ == b,
                        forall|j: int| self.next_index <= j < i ==> s@[j] != 10,
                    decreases len - i,
                {
                    i += 1;
                }
            }
            if i >= len {
                proof {
                    lemma_find_nl_none(b, c as int);
                }
                self.next_index = len;
                return Option::None;
            }
            let p = i;
            proof {
                lemma_find_nl_exact(b, c as int, p as int);
            }
            if p < LINE_WRAP {
                let bline = bm_split_to(buf, p + 1);
                let bs = bm_slice(&bline);
                let raw = &bs[0..p];
                proof {
                    assert(raw@ =~= b.subrange(0, p as int));
                }
                let line = without_carriage_return(raw);
                self.next_index = 0;
                if line.len() == 0 {
                    continue;
                }
                self.id = self.id + 1;
                let rec = render_record(self.id, line);
                return Option::Some(rec);
            } else {
                let bline = bm_split_to(buf, LINE_WRAP);
                let bs = bm_slice(&bline);
                self.id = self.id + 1;
                self.next_index = 0;
                let rec = render_record(self.id, bs);
                return Option::Some(rec);
            }
        }
    }
}

/// Every emitted line is bounded: a delimited line is shorter than
/// [`LINE_WRAP`], and a forced cut is exactly [`LINE_WRAP`] bytes. This is
/// the bound that keeps records and buffering finite for a device that
/// never sends a delimiter.
pub proof fn law_emitted_lines_are_bounded(cursor: nat, id: nat, b: Seq<u8>)
    ensures
        match spec_decode_step(cursor, id, b).line {
            Option::Some(line) => line.len() <= LINE_WRAP,
            Option::None => true,
        },
    decreases b.len(),
{
    lemma_find_nl(b, cursor as int);
    match find_nl(b, cursor as int) {
        Option::None => {},
        Option::Some(p) => {
            if p < LINE_WRAP as int {
                let line = spec_strip_cr(b.subrange(0, p));
                if line.len() == 0 {
                    law_emitted_lines_are_bounded(0, id, b.subrange(p + 1, b.len() as int));
                }
            }
        },
    }
}

/// Record ids are strictly increasing and never reused: one pass moves the
/// id forward by exactly one when it emits a line, and not at all when it
/// does not.
pub proof fn law_ids_strictly_increase(cursor: nat, id: nat, b: Seq<u8>)
    ensures
        ({
            let s = spec_decode_step(cursor, id, b);
            &&& id <= s.id <= id + 1
            &&& (s.line is Some <==> s.id == id + 1)
        }),
    decreases b.len(),
{
    lemma_find_nl(b, cursor as int);
    match find_nl(b, cursor as int) {
        Option::None => {},
        Option::Some(p) => {
            if p < LINE_WRAP as int {
                let line = spec_strip_cr(b.subrange(0, p));
                if line.len() == 0 {
                    law_ids_strictly_increase(0, id, b.subrange(p + 1, b.len() as int));
                }
            }
        },
    }
}

/// A line arriving as `<line>\r\n` decodes exactly as the same line
/// arriving as `<line>\n`: the one trailing carriage return is stripped
/// before the text is rendered, and the framer's state afterwards is the
/// same. Excluded are lines that themselves end in a carriage return —
/// stripping would eat their own final byte — and lines so long that the
/// extra carriage return pushes the line feed past the width bound.
pub proof fn law_crlf_equals_lf(id: nat, line: Seq<u8>)
    requires
        forall|j: int| 0 <= j < line.len() ==> line[j] != 10,
        line.len() == 0 || line[line.len() - 1] != 13,
        line.len() + 1 < LINE_WRAP,
    ensures
        spec_decode_step(0, id, line + seq![13u8, 10u8]) == spec_decode_step(
            0,
            id,
            line + seq![10u8],
        ),
{
    let n = line.len() as int;
    let b1 = line + seq![13u8, 10u8];
    let b2 = line + seq![10u8];
    lemma_find_nl_exact(b1, 0, n + 1);
    lemma_find_nl_exact(b2, 0, n);
    let raw1 = b1.subrange(0, n + 1);
    let raw2 = b2.subrange(0, n);
    assert(raw1 =~= line + seq![13u8]);
    assert(raw2 =~= line);
    assert(spec_strip_cr(raw1) =~= line);
    assert(spec_strip_cr(raw2) == line);
    let rest1 = b1.subrange(n + 2, b1.len() as int);
    let rest2 = b2.subrange(n + 1, b2.len() as int);
    assert(rest1 =~= Seq::<u8>::empty());
    assert(rest2 =~= Seq::<u8>::empty());
    if line.len() == 0 {
        lemma_find_nl_none(rest1, 0);
        assert(spec_decode_step(0, id, b1) == spec_decode_step(0, id, rest1));
        assert(spec_decode_step(0, id, b2) == spec_decode_step(0, id, rest2));
    }
}

} // verus!
