use vstd::prelude::*;
use crate::bins::Bins;
use crate::date::{is_digit_char, iso_text, lemma_iso_chars, lemma_iso_text_injective, CalendarDate};

verus! {

/// The outcome of one lookup: the collection date and which bins are due.
#[derive(Clone, Copy, Debug, PartialEq, Eq, Structural)]
pub struct CollectionResult {
    pub date: CalendarDate,
    pub black: bool,
    pub blue: bool,
    pub brown: bool,
}

/// `true` or `false`, as JSON writes them.
pub open spec fn bool_text(b: bool) -> Seq<char> {
    if b { "true"@ } else { "false"@ }
}

/// The compact JSON object of a result, fields in the order date, black, blue, brown, e.g.
/// `{"date":"2024-01-01","black":true,"blue":false,"brown":false}`.
pub open spec fn json_text(r: CollectionResult) -> Seq<char> {
    "{\"date\":\""@ + iso_text(r.date) + bins_json_text(r)
}

/// What follows the date in the JSON text: the three bins.
pub open spec fn bins_json_text(r: CollectionResult) -> Seq<char> {
    "\",\"black\":"@ + bool_text(r.black) + ",\"blue\":"@ + bool_text(r.blue) + ",\"brown\":"@
        + bool_text(r.brown) + "}"@
}

proof fn lemma_bool_text(b: bool)
    ensures
        bool_text(b)[0] == (if b { 't' } else { 'f' }),
        bool_text(b).len() == (if b { 4int } else { 5int }),
{
    reveal_strlit("true");
    reveal_strlit("false");
}

/// The bins part of the JSON text determines the three bins.
proof fn lemma_bins_text_injective(a: CollectionResult, b: CollectionResult)
    requires
        bins_json_text(a) == bins_json_text(b),
    ensures
        a.black == b.black && a.blue == b.blue && a.brown == b.brown,
{
    reveal_strlit("\",\"black\":");
    reveal_strlit(",\"blue\":");
    reveal_strlit(",\"brown\":");
    let (ra, rb) = (bins_json_text(a), bins_json_text(b));
    lemma_bool_text(a.black);
    lemma_bool_text(b.black);
    lemma_bool_text(a.blue);
    lemma_bool_text(b.blue);
    lemma_bool_text(a.brown);
    lemma_bool_text(b.brown);
    assert(ra[10] == bool_text(a.black)[0]);
    assert(rb[10] == bool_text(b.black)[0]);
    assert(a.black == b.black);
    let k: int = 10 + bool_text(a.black).len() as int + 8;
    assert(ra[k] == bool_text(a.blue)[0]);
    assert(rb[k] == bool_text(b.blue)[0]);
    assert(a.blue == b.blue);
    let m: int = k + bool_text(a.blue).len() as int + 9;
    assert(ra[m] == bool_text(a.brown)[0]);
    assert(rb[m] == bool_text(b.brown)[0]);
}

/// The date part of the JSON text ends where the first quote after the opening field name
/// stands, so equal texts have equal date parts and equal bins parts.
proof fn lemma_json_parts(a: CollectionResult, b: CollectionResult)
    requires
        json_text(a) == json_text(b),
    ensures
        iso_text(a.date) == iso_text(b.date),
        bins_json_text(a) == bins_json_text(b),
{
    reveal_strlit("{\"date\":\"");
    reveal_strlit("\",\"black\":");
    let s = json_text(a);
    let (ia, ib) = (iso_text(a.date), iso_text(b.date));
    let (ra, rb) = (bins_json_text(a), bins_json_text(b));
    let (la, lb) = (ia.len() as int, ib.len() as int);
    assert(ra[0] == '"');
    assert(rb[0] == '"');
    lemma_iso_chars(a.date);
    lemma_iso_chars(b.date);
    assert(!is_digit_char('"'));
    if la < lb {
        assert(s[9 + la] == ra[0]);
        assert(s[9 + la] == ib[la]);
    }
    if lb < la {
        assert(s[9 + lb] == rb[0]);
        assert(s[9 + lb] == ia[lb]);
    }
    assert(ia =~= s.subrange(9, 9 + la));
    assert(ib =~= s.subrange(9, 9 + la));
    assert(ra =~= s.subrange(9 + la, s.len() as int));
    assert(rb =~= s.subrange(9 + la, s.len() as int));
}

/// The JSON text of a valid result determines it: reading back what `to_json` writes gives
/// the same date and the same three bins.
pub proof fn lemma_json_round_trip(a: CollectionResult, b: CollectionResult)
    requires
        a.wf(),
        b.wf(),
        json_text(a) == json_text(b),
    ensures
        a == b,
{
    lemma_json_parts(a, b);
    lemma_iso_text_injective(a.date, b.date);
    lemma_bins_text_injective(a, b);
}

fn push_bool(out: &mut String, b: bool)
    ensures
        final(out)@ == old(out)@ + bool_text(b),
{
    if b {
        out.append("true");
    } else {
        out.append("false");
    }
}

impl CollectionResult {
    pub open spec fn wf(&self) -> bool {
        self.date.wf()
    }

    /// The result for a collection on `date` of the bins in `bins`.
    pub fn new(date: CalendarDate, bins: Bins) -> (r: CollectionResult)
        ensures
            r == (CollectionResult { date, black: bins.black, blue: bins.blue, brown: bins.brown }),
    {
        CollectionResult { date, black: bins.black, blue: bins.blue, brown: bins.brown }
    }

    /// The result as one line of compact JSON, the date in ISO 8601 form.
    pub fn to_json(&self) -> (r: String)
        requires
            self.wf(),
        ensures
            r@ == json_text(*self),
    {
        let mut out = String::from_str("{\"date\":\"");
        let iso = self.date.iso_string();
        out.append(iso.as_str());
        out.append("\",\"black\":");
        push_bool(&mut out, self.black);
        out.append(",\"blue\":");
        push_bool(&mut out, self.blue);
        out.append(",\"brown\":");
        push_bool(&mut out, self.brown);
        out.append("}");
        assert(out@ =~= json_text(*self));
        out
    }
}

} // verus!
