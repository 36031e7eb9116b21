//! The wire form: what one condition and one merge-patch document look
//! like as JSON text, with camelCase keys and the fixed
//! `lastTransitionTime` field name that conventional condition-object
//! readers expect.
//!
//! The encoders carry exact contracts: the text produced is, character
//! for character, the sequence the spec functions here describe.  The
//! decoder reads a condition back; decoding what was encoded yields the
//! value that was written.

use vstd::prelude::*;
use vstd::string::*;

use crate::condition::{opt_str_view, Applier, ApplierView, Condition, ConditionView};
use crate::patch::{FieldPatchView, Phase, StatusPatch, StatusPatchView, SummaryPatchView};
use crate::time::{digit_char, digit_val, rfc3339_of, spec_parse_rfc3339, Timestamp};

verus! {

/// The lower-case hex digit character for `d` in `0..16`.
pub open spec fn hex_char(d: int) -> char {
    if d < 10 {
        digit_char(d)
    } else if d == 10 {
        'a'
    } else if d == 11 {
        'b'
    } else if d == 12 {
        'c'
    } else if d == 13 {
        'd'
    } else if d == 14 {
        'e'
    } else {
        'f'
    }
}

/// How one character is written inside a JSON string: quote and
/// backslash get a backslash escape, control characters a `\u00xx`
/// escape, everything else stands as itself.
pub open spec fn esc_char(c: char) -> Seq<char> {
    if c == '"' {
        seq!['\\', '"']
    } else if c == '\\' {
        seq!['\\', '\\']
    } else if (c as u32) < 32 {
        seq!['\\', 'u', '0', '0', hex_char((c as u32) as int / 16), hex_char((c as u32) as int % 16)]
    } else {
        seq![c]
    }
}

/// A whole text written inside a JSON string, character by character.
pub open spec fn escape(s: Seq<char>) -> Seq<char>
    decreases s.len(),
{
    if s.len() == 0 {
        Seq::empty()
    } else {
        esc_char(s[0]) + escape(s.skip(1))
    }
}

/// A JSON string literal: the escaped text between quotes.
pub open spec fn jstr(s: Seq<char>) -> Seq<char> {
    seq!['"'] + escape(s) + seq!['"']
}

/// An optional text: a JSON string where present, `null` where absent.
pub open spec fn jopt(o: Option<Seq<char>>) -> Seq<char> {
    match o {
        Some(s) => jstr(s),
        None => "null"@,
    }
}

/// The JSON object form of an applier.
pub open spec fn json_of_applier(a: ApplierView) -> Seq<char> {
    "{\"name\":"@ + jstr(a.name) + ",\"url\":"@ + jopt(a.url) + "}"@
}

/// The JSON object form of a condition.  Absent reason, message and
/// source are written as explicit nulls; the transition time is the
/// RFC 3339 second-precision rendering.
/// The text of a JSON boolean.
pub open spec fn bool_text(b: bool) -> Seq<char> {
    if b {
        "true"@
    } else {
        "false"@
    }
}

/// An optional applier: its object form where present, `null` where
/// absent.
pub open spec fn jopt_applier(o: Option<ApplierView>) -> Seq<char> {
    match o {
        Some(a) => json_of_applier(a),
        None => "null"@,
    }
}

/// The JSON object form of a condition.  Absent reason, message and
/// source are written as explicit nulls; the transition time is the
/// RFC 3339 second-precision rendering.
pub open spec fn json_of_condition(c: ConditionView) -> Seq<char> {
    "{\"status\":"@ + bool_text(c.status) + ",\"reason\":"@ + jopt(c.reason) + ",\"message\":"@
        + jopt(c.message) + ",\"lastTransitionTime\":\""@ + rfc3339_of(c.last_transition)
        + seq!['"'] + ",\"source\":"@ + jopt_applier(c.source) + "}"@
}

fn push_hex(out: &mut String, d: u32)
    requires
        d < 16,
    ensures
        final(out)@ == old(out)@.push(hex_char(d as int)),
{
    if d == 0 {
        out.push('0');
    } else if d == 1 {
        out.push('1');
    } else if d == 2 {
        out.push('2');
    } else if d == 3 {
        out.push('3');
    } else if d == 4 {
        out.push('4');
    } else if d == 5 {
        out.push('5');
    } else if d == 6 {
        out.push('6');
    } else if d == 7 {
        out.push('7');
    } else if d == 8 {
        out.push('8');
    } else if d == 9 {
        out.push('9');
    } else if d == 10 {
        out.push('a');
    } else if d == 11 {
        out.push('b');
    } else if d == 12 {
        out.push('c');
    } else if d == 13 {
        out.push('d');
    } else if d == 14 {
        out.push('e');
    } else {
        out.push('f');
    }
}

fn push_escaped(out: &mut String, s: &str)
    ensures
        final(out)@ == old(out)@ + escape(s@),
{
    let n = s.unicode_len();
    let mut i: usize = 0;
    assert(s@.skip(0) =~= s@);
    while i < n
        invariant
            n == s@.len(),
            i <= n,
            out@ + escape(s@.skip(i as int)) =~= old(out)@ + escape(s@),
        decreases n - i,
    {
        let ghost pre = out@;
        let ghost tail = s@.skip(i as int);
        let c = s.get_char(i);
        proof {
            assert(tail.len() > 0);
            assert(tail[0] == c);
            assert(tail.skip(1) =~= s@.skip(i as int + 1));
        }
        if c == '"' {
            out.push('\\');
            out.push('"');
        } else if c == '\\' {
            out.push('\\');
            out.push('\\');
        } else if (c as u32) < 32 {
            let code = c as u32;
            out.push('\\');
            out.push('u');
            out.push('0');
            out.push('0');
            push_hex(out, code / 16);
            push_hex(out, code % 16);
        } else {
            out.push(c);
        }
        proof {
            assert(out@ =~= pre + esc_char(c));
            assert(out@ + escape(s@.skip(i as int + 1)) =~= pre + escape(tail));
        }
        i += 1;
    }
    proof {
        assert(s@.skip(n as int) =~= Seq::<char>::empty());
        assert(out@ =~= old(out)@ + escape(s@));
    }
}

fn push_jstr(out: &mut String, s: &str)
    ensures
        final(out)@ == old(out)@ + jstr(s@),
{
    out.push('"');
    push_escaped(out, s);
    out.push('"');
    assert(out@ =~= old(out)@ + jstr(s@));
}

fn push_jopt(out: &mut String, o: &Option<String>)
    ensures
        final(out)@ == old(out)@ + jopt(opt_str_view(*o)),
{
    match o {
        Some(s) => push_jstr(out, s.as_str()),
        None => out.append("null"),
    }
}

fn push_japplier(out: &mut String, a: &Applier)
    ensures
        final(out)@ == old(out)@ + json_of_applier(a@),
{
    out.append("{\"name\":");
    push_jstr(out, a.name.as_str());
    out.append(",\"url\":");
    push_jopt(out, &a.url);
    out.append("}");
    assert(out@ =~= old(out)@ + json_of_applier(a@));
}

impl Condition {
    /// Render this condition as its JSON object form.
    pub fn to_json(&self) -> (r: String)
        requires
            self@.last_transition.wf(),
        ensures
            r@ == json_of_condition(self@),
    {
        let mut out = String::from_str("{\"status\":");
        if self.status {
            out.append("true");
        } else {
            out.append("false");
        }
        out.append(",\"reason\":");
        push_jopt(&mut out, &self.reason);
        out.append(",\"message\":");
        push_jopt(&mut out, &self.message);
        out.append(",\"lastTransitionTime\":\"");
        let ts = self.last_transition.to_rfc3339();
        out.append(ts.as_str());
        out.push('"');
        out.append(",\"source\":");
        match &self.source {
            Some(a) => push_japplier(&mut out, a),
            None => out.append("null"),
        }
        out.append("}");
        assert(out@ =~= json_of_condition(self@));
        out
    }
}

/// The spec-level text of each string in a list.
pub open spec fn views_of(es: Seq<String>) -> Seq<Seq<char>> {
    es.map_values(|s: String| s@)
}

/// Key-value texts joined with commas: the inside of a JSON object.
pub open spec fn join_comma(xs: Seq<Seq<char>>) -> Seq<char>
    decreases xs.len(),
{
    if xs.len() == 0 {
        Seq::empty()
    } else if xs.len() == 1 {
        xs[0]
    } else {
        xs[0] + seq![','] + join_comma(xs.skip(1))
    }
}

/// The summary entry recording a successful template generation time.
pub open spec fn e_generate(sp: SummaryPatchView) -> Seq<Seq<char>> {
    match sp.last_successful_generate {
        Some(t) => seq!["\"lastSuccessfulGenerate\":\""@ + rfc3339_of(t) + "\""@],
        None => Seq::empty(),
    }
}

/// The summary entry recording an apply attempt time.
pub open spec fn e_apply(sp: SummaryPatchView) -> Seq<Seq<char>> {
    match sp.last_apply {
        Some(t) => seq!["\"lastApply\":\""@ + rfc3339_of(t) + "\""@],
        None => Seq::empty(),
    }
}

/// The summary entry recording a successful apply time.
pub open spec fn e_apply_ok(sp: SummaryPatchView) -> Seq<Seq<char>> {
    match sp.last_successful_apply {
        Some(t) => seq!["\"lastSuccessfulApply\":\""@ + rfc3339_of(t) + "\""@],
        None => Seq::empty(),
    }
}

/// The summary entry recording a rollout completion time.
pub open spec fn e_rollout(sp: SummaryPatchView) -> Seq<Seq<char>> {
    match sp.last_rollout {
        Some(t) => seq!["\"lastRollout\":\""@ + rfc3339_of(t) + "\""@],
        None => Seq::empty(),
    }
}

/// The summary entry recording a successful rollout time.
pub open spec fn e_rollout_ok(sp: SummaryPatchView) -> Seq<Seq<char>> {
    match sp.last_successful_rollout {
        Some(t) => seq!["\"lastSuccessfulRollout\":\""@ + rfc3339_of(t) + "\""@],
        None => Seq::empty(),
    }
}

/// The summary reason entry: absent, an explicit null, or a value.
pub open spec fn e_reason(sp: SummaryPatchView) -> Seq<Seq<char>> {
    match sp.reason {
        FieldPatchView::Untouched => Seq::empty(),
        FieldPatchView::Clear => seq!["\"reason\":null"@],
        FieldPatchView::Assign(s) => seq!["\"reason\":"@ + jstr(s)],
    }
}

/// The summary overall-status entry.
pub open spec fn e_status(sp: SummaryPatchView) -> Seq<Seq<char>> {
    match sp.status {
        Some(b) => if b {
            seq!["\"status\":true"@]
        } else {
            seq!["\"status\":false"@]
        },
        None => Seq::empty(),
    }
}

/// The summary upgrade-reason entry.
pub open spec fn e_upgrade(sp: SummaryPatchView) -> Seq<Seq<char>> {
    match sp.upgrade_reason {
        Some(s) => seq!["\"upgradeReason\":"@ + jstr(s)],
        None => Seq::empty(),
    }
}

/// Every summary entry one patch writes, in a fixed field order; a
/// field the patch leaves untouched contributes no entry at all.
pub open spec fn summary_entries(sp: SummaryPatchView) -> Seq<Seq<char>> {
    e_generate(sp) + e_apply(sp) + e_apply_ok(sp) + e_rollout(sp) + e_rollout_ok(sp) + e_reason(sp)
        + e_status(sp) + e_upgrade(sp)
}

/// The JSON merge-patch document for one phase transition: under
/// `status`, the one named condition slot and the touched summary
/// fields, and nothing else.
pub open spec fn json_of_patch(p: StatusPatchView) -> Seq<char> {
    "{\"status\":{\"conditions\":{"@ + (match p.phase {
        Phase::Generated => "\"generated\":"@,
        Phase::Applied => "\"applied\":"@,
        Phase::Rolledout => "\"rolledout\":"@,
    }) + json_of_condition(p.condition) + "},\"summary\":{"@ + join_comma(summary_entries(p.summary))
        + "}}}"@
}

fn date_entry(prefix: &str, t: Timestamp) -> (r: String)
    requires
        t.wf(),
    ensures
        r@ == prefix@ + rfc3339_of(t) + "\""@,
{
    let mut e = String::from_str(prefix);
    let ts = t.to_rfc3339();
    e.append(ts.as_str());
    e.append("\"");
    assert(e@ =~= prefix@ + rfc3339_of(t) + "\""@);
    e
}

fn join_entries(entries: &Vec<String>, i: usize) -> (r: String)
    requires
        i <= entries@.len(),
    ensures
        r@ == join_comma(views_of(entries@).skip(i as int)),
    decreases entries@.len() - i,
{
    let n = entries.len();
    if i >= n {
        let r = String::new();
        assert(views_of(entries@).skip(i as int) =~= Seq::<Seq<char>>::empty());
        r
    } else if i == n - 1 {
        let r = entries[i].clone();
        proof {
            let vs = views_of(entries@).skip(i as int);
            assert(vs.len() == 1);
            assert(vs[0] == entries@[i as int]@);
        }
        r
    } else {
        let mut r = entries[i].clone();
        r.push(',');
        let rest = join_entries(entries, i + 1);
        r.append(rest.as_str());
        proof {
            let vs = views_of(entries@).skip(i as int);
            assert(vs.len() >= 2);
            assert(vs[0] == entries@[i as int]@);
            assert(vs.skip(1) =~= views_of(entries@).skip(i as int + 1));
            assert(r@ =~= join_comma(vs));
        }
        r
    }
}

fn push_date_entry(entries: &mut Vec<String>, o: Option<Timestamp>, prefix: &str)
    requires
        o matches Some(t) ==> t.wf(),
    ensures
        views_of(final(entries)@) == views_of(old(entries)@) + (match o {
            Some(t) => seq![prefix@ + rfc3339_of(t) + "\""@],
            None => Seq::<Seq<char>>::empty(),
        }),
{
    let ghost pre = views_of(entries@);
    match o {
        Some(t) => {
            entries.push(date_entry(prefix, t));
            proof {
                assert(views_of(entries@) =~= pre + seq![prefix@ + rfc3339_of(t) + "\""@]);
            }
        },
        None => {
            proof {
                assert(views_of(entries@) =~= pre + Seq::<Seq<char>>::empty());
            }
        },
    }
}

fn push_reason_entry(entries: &mut Vec<String>, r: &crate::patch::FieldPatch)
    ensures
        views_of(final(entries)@) == views_of(old(entries)@) + (match r@ {
            FieldPatchView::Untouched => Seq::<Seq<char>>::empty(),
            FieldPatchView::Clear => seq!["\"reason\":null"@],
            FieldPatchView::Assign(s) => seq!["\"reason\":"@ + jstr(s)],
        }),
{
    let ghost pre = views_of(entries@);
    match r {
        crate::patch::FieldPatch::Untouched => {
            proof {
                assert(views_of(entries@) =~= pre + Seq::<Seq<char>>::empty());
            }
        },
        crate::patch::FieldPatch::Clear => {
            entries.push(String::from_str("\"reason\":null"));
            proof {
                assert(views_of(entries@) =~= pre + seq!["\"reason\":null"@]);
            }
        },
        crate::patch::FieldPatch::Assign(s) => {
            let mut e = String::from_str("\"reason\":");
            push_jstr(&mut e, s.as_str());
            entries.push(e);
            proof {
                assert(views_of(entries@) =~= pre + seq!["\"reason\":"@ + jstr(s@)]);
            }
        },
    }
}

fn push_status_entry(entries: &mut Vec<String>, o: Option<bool>)
    ensures
        views_of(final(entries)@) == views_of(old(entries)@) + (match o {
            Some(b) => if b {
                seq!["\"status\":true"@]
            } else {
                seq!["\"status\":false"@]
            },
            None => Seq::<Seq<char>>::empty(),
        }),
{
    let ghost pre = views_of(entries@);
    match o {
        Some(b) => {
            if b {
                entries.push(String::from_str("\"status\":true"));
                proof {
                    assert(views_of(entries@) =~= pre + seq!["\"status\":true"@]);
                }
            } else {
                entries.push(String::from_str("\"status\":false"));
                proof {
                    assert(views_of(entries@) =~= pre + seq!["\"status\":false"@]);
                }
            }
        },
        None => {
            proof {
                assert(views_of(entries@) =~= pre + Seq::<Seq<char>>::empty());
            }
        },
    }
}

fn push_upgrade_entry(entries: &mut Vec<String>, o: &Option<String>)
    ensures
        views_of(final(entries)@) == views_of(old(entries)@) + (match opt_str_view(*o) {
            Some(s) => seq!["\"upgradeReason\":"@ + jstr(s)],
            None => Seq::<Seq<char>>::empty(),
        }),
{
    let ghost pre = views_of(entries@);
    match o {
        Some(s) => {
            let mut e = String::from_str("\"upgradeReason\":");
            push_jstr(&mut e, s.as_str());
            entries.push(e);
            proof {
                assert(views_of(entries@) =~= pre + seq!["\"upgradeReason\":"@ + jstr(s@)]);
            }
        },
        None => {
            proof {
                assert(views_of(entries@) =~= pre + Seq::<Seq<char>>::empty());
            }
        },
    }
}

#[verifier::rlimit(100)]
fn summary_entry_list(sp: &crate::patch::SummaryPatch) -> (v: Vec<String>)
    requires
        sp@.wf(),
    ensures
        views_of(v@) == summary_entries(sp@),
{
    let mut entries: Vec<String> = Vec::new();
    let ghost spv = sp@;
    assert(views_of(entries@) =~= Seq::<Seq<char>>::empty());
    push_date_entry(&mut entries, sp.last_successful_generate, "\"lastSuccessfulGenerate\":\"");
    push_date_entry(&mut entries, sp.last_apply, "\"lastApply\":\"");
    push_date_entry(&mut entries, sp.last_successful_apply, "\"lastSuccessfulApply\":\"");
    push_date_entry(&mut entries, sp.last_rollout, "\"lastRollout\":\"");
    push_date_entry(&mut entries, sp.last_successful_rollout, "\"lastSuccessfulRollout\":\"");
    push_reason_entry(&mut entries, &sp.reason);
    push_status_entry(&mut entries, sp.status);
    push_upgrade_entry(&mut entries, &sp.upgrade_reason);
    proof {
        assert(views_of(entries@) =~= summary_entries(spv));
    }
    entries
}

impl StatusPatch {
    /// Render this patch as the JSON merge-patch document to send to
    /// the remote store's patch-status call.
    pub fn to_json(&self) -> (r: String)
        requires
            self@.wf(),
        ensures
            r@ == json_of_patch(self@),
    {
        let mut out = String::from_str("{\"status\":{\"conditions\":{");
        match self.phase {
            Phase::Generated => out.append("\"generated\":"),
            Phase::Applied => out.append("\"applied\":"),
            Phase::Rolledout => out.append("\"rolledout\":"),
        }
        let cj = self.condition.to_json();
        out.append(cj.as_str());
        out.append("},\"summary\":{");
        let entries = summary_entry_list(&self.summary);
        let joined = join_entries(&entries, 0);
        proof {
            assert(views_of(entries@).skip(0) =~= views_of(entries@));
        }
        out.append(joined.as_str());
        out.append("}}}");
        assert(out@ =~= json_of_patch(self@));
        out
    }
}


/// The hex digit value of `c` (lower case), or `-1` when `c` is none.
pub open spec fn hex_val(c: char) -> int {
    if digit_val(c) >= 0 {
        digit_val(c)
    } else if c == 'a' {
        10
    } else if c == 'b' {
        11
    } else if c == 'c' {
        12
    } else if c == 'd' {
        13
    } else if c == 'e' {
        14
    } else if c == 'f' {
        15
    } else {
        -1
    }
}

/// A character that stands as itself inside a JSON string.
pub open spec fn plain_char(c: char) -> bool {
    c != '"' && c != '\\' && (c as u32) >= 32
}

/// What reading a JSON string body (after its opening quote) yields:
/// the decoded text and what follows the closing quote, or `None` when
/// the text is not a string body this library's encoder could have
/// written.
pub open spec fn spec_parse_string_body(s: Seq<char>) -> Option<(Seq<char>, Seq<char>)>
    decreases s.len(),
{
    if s.len() == 0 {
        None
    } else if s[0] == '"' {
        Some((Seq::empty(), s.skip(1)))
    } else if s[0] == '\\' {
        if s.len() >= 2 && (s[1] == '"' || s[1] == '\\') {
            match spec_parse_string_body(s.skip(2)) {
                Some(p) => Some((seq![s[1]] + p.0, p.1)),
                None => None,
            }
        } else if s.len() >= 6 && s[1] == 'u' && s[2] == '0' && s[3] == '0' && hex_val(s[4]) >= 0
            && hex_val(s[5]) >= 0 && hex_val(s[4]) * 16 + hex_val(s[5]) < 32 {
            match spec_parse_string_body(s.skip(6)) {
                Some(p) => Some(
                    (seq![(((hex_val(s[4]) * 16 + hex_val(s[5])) as u32) as char)] + p.0, p.1),
                ),
                None => None,
            }
        } else {
            None
        }
    } else if (s[0] as u32) < 32 {
        None
    } else {
        match spec_parse_string_body(s.skip(1)) {
            Some(p) => Some((seq![s[0]] + p.0, p.1)),
            None => None,
        }
    }
}

/// What consuming the exact literal `lit` from the front of `s`
/// leaves, or `None` when `s` does not start with it.
pub open spec fn spec_expect(s: Seq<char>, lit: Seq<char>) -> Option<Seq<char>> {
    if lit.len() <= s.len() && s.subrange(0, lit.len() as int) == lit {
        Some(s.skip(lit.len() as int))
    } else {
        None
    }
}

/// What reading a JSON boolean from the front of `s` yields.
pub open spec fn spec_parse_bool(s: Seq<char>) -> Option<(bool, Seq<char>)> {
    match spec_expect(s, "true"@) {
        Some(rest) => Some((true, rest)),
        None => match spec_expect(s, "false"@) {
            Some(rest) => Some((false, rest)),
            None => None,
        },
    }
}

/// What reading `null` or a JSON string from the front of `s` yields.
pub open spec fn spec_parse_opt_string(s: Seq<char>) -> Option<(Option<Seq<char>>, Seq<char>)> {
    match spec_expect(s, "null"@) {
        Some(rest) => Some((None, rest)),
        None => if s.len() > 0 && s[0] == '"' {
            match spec_parse_string_body(s.skip(1)) {
                Some(p) => Some((Some(p.0), p.1)),
                None => None,
            }
        } else {
            None
        },
    }
}

/// What reading an applier object from the front of `s` yields.
pub open spec fn spec_parse_applier(s: Seq<char>) -> Option<(ApplierView, Seq<char>)> {
    match spec_expect(s, "{\"name\":"@) {
        None => None,
        Some(s1) => if s1.len() > 0 && s1[0] == '"' {
            match spec_parse_string_body(s1.skip(1)) {
                None => None,
                Some(p1) => match spec_expect(p1.1, ",\"url\":"@) {
                    None => None,
                    Some(s2) => match spec_parse_opt_string(s2) {
                        None => None,
                        Some(p2) => match spec_expect(p2.1, "}"@) {
                            None => None,
                            Some(s3) => Some((ApplierView { name: p1.0, url: p2.0 }, s3)),
                        },
                    },
                },
            }
        } else {
            None
        },
    }
}

/// What reading a whole condition object yields: the decoder for the
/// exact form `json_of_condition` writes, with nothing allowed to
/// follow the closing brace.
pub open spec fn spec_parse_condition(s: Seq<char>) -> Option<ConditionView> {
    match spec_expect(s, "{\"status\":"@) {
        None => None,
        Some(s1) => match spec_parse_bool(s1) {
            None => None,
            Some(pb) => match spec_expect(pb.1, ",\"reason\":"@) {
                None => None,
                Some(s2) => match spec_parse_opt_string(s2) {
                    None => None,
                    Some(pr) => match spec_expect(pr.1, ",\"message\":"@) {
                        None => None,
                        Some(s3) => match spec_parse_opt_string(s3) {
                            None => None,
                            Some(pm) => match spec_expect(pm.1, ",\"lastTransitionTime\":\""@) {
                                None => None,
                                Some(s4) => match spec_parse_string_body(s4) {
                                    None => None,
                                    Some(pt) => match spec_parse_rfc3339(pt.0) {
                                        None => None,
                                        Some(t) => match spec_expect(pt.1, ",\"source\":"@) {
                                            None => None,
                                            Some(s5) => match spec_parse_source(s5) {
                                                None => None,
                                                Some(ps) => match spec_expect(ps.1, "}"@) {
                                                    None => None,
                                                    Some(s6) => if s6.len() == 0 {
                                                        Some(
                                                            ConditionView {
                                                                status: pb.0,
                                                                reason: pr.0,
                                                                message: pm.0,
                                                                last_transition: t,
                                                                source: ps.0,
                                                            },
                                                        )
                                                    } else {
                                                        None
                                                    },
                                                },
                                            },
                                        },
                                    },
                                },
                            },
                        },
                    },
                },
            },
        },
    }
}

/// What reading `null` or an applier object yields.
pub open spec fn spec_parse_source(s: Seq<char>) -> Option<(Option<ApplierView>, Seq<char>)> {
    match spec_expect(s, "null"@) {
        Some(rest) => Some((None, rest)),
        None => match spec_parse_applier(s) {
            Some(p) => Some((Some(p.0), p.1)),
            None => None,
        },
    }
}

fn hex_of(c: char) -> (r: Option<u32>)
    ensures
        match r {
            Some(d) => d < 16 && hex_val(c) == d as int,
            None => hex_val(c) < 0,
        },
{
    match crate::time::digit_of(c) {
        Some(d) => Some(d),
        None => {
            if c == 'a' {
                Some(10)
            } else if c == 'b' {
                Some(11)
            } else if c == 'c' {
                Some(12)
            } else if c == 'd' {
                Some(13)
            } else if c == 'e' {
                Some(14)
            } else if c == 'f' {
                Some(15)
            } else {
                None
            }
        },
    }
}

fn parse_string_body<'a>(s: &'a str) -> (r: Option<(String, &'a str)>)
    ensures
        match r {
            Some(p) => spec_parse_string_body(s@) == Some((p.0@, p.1@)),
            None => spec_parse_string_body(s@) is None,
        },
    decreases s@.len(),
{
    let n = s.unicode_len();
    if n == 0 {
        return None;
    }
    let c = s.get_char(0);
    if c == '"' {
        let rest = s.substring_char(1, n);
        proof {
            assert(rest@ =~= s@.skip(1));
        }
        Some((String::new(), rest))
    } else if c == '\\' {
        if n < 2 {
            return None;
        }
        let c1 = s.get_char(1);
        if c1 == '"' || c1 == '\\' {
            let tail = s.substring_char(2, n);
            proof {
                assert(tail@ =~= s@.skip(2));
            }
            match parse_string_body(tail) {
                Some((x, rest)) => {
                    let mut out = String::new();
                    out.push(c1);
                    out.append(x.as_str());
                    proof {
                        assert(out@ =~= seq![s@[1]] + x@);
                    }
                    Some((out, rest))
                },
                None => None,
            }
        } else if c1 == 'u' && n >= 6 {
            let c2 = s.get_char(2);
            let c3 = s.get_char(3);
            if c2 != '0' || c3 != '0' {
                return None;
            }
            let h4 = hex_of(s.get_char(4));
            let h5 = hex_of(s.get_char(5));
            match (h4, h5) {
                (Some(a), Some(b)) => {
                    let code: u32 = a * 16 + b;
                    if code >= 32 {
                        return None;
                    }
                    let ch: char = (code as u8) as char;
                    let tail = s.substring_char(6, n);
                    proof {
                        assert(tail@ =~= s@.skip(6));
                    }
                    match parse_string_body(tail) {
                        Some((x, rest)) => {
                            let mut out = String::new();
                            out.push(ch);
                            out.append(x.as_str());
                            proof {
                                broadcast use vstd::utf8::char_u32_cast;

                                assert(ch as u32 == code);
                                assert(ch == (((hex_val(s@[4]) * 16 + hex_val(s@[5])) as u32)
                                    as char));
                                assert(out@ =~= seq![
                                    (((hex_val(s@[4]) * 16 + hex_val(s@[5])) as u32) as char),
                                ] + x@);
                            }
                            Some((out, rest))
                        },
                        None => None,
                    }
                },
                _ => None,
            }
        } else {
            None
        }
    } else if (c as u32) < 32 {
        None
    } else {
        let tail = s.substring_char(1, n);
        proof {
            assert(tail@ =~= s@.skip(1));
        }
        match parse_string_body(tail) {
            Some((x, rest)) => {
                let mut out = String::new();
                out.push(c);
                out.append(x.as_str());
                proof {
                    assert(out@ =~= seq![s@[0]] + x@);
                }
                Some((out, rest))
            },
            None => None,
        }
    }
}

fn expect<'a>(s: &'a str, lit: &str) -> (r: Option<&'a str>)
    ensures
        match r {
            Some(rest) => spec_expect(s@, lit@) == Some(rest@),
            None => spec_expect(s@, lit@) is None,
        },
{
    let n = s.unicode_len();
    let m = lit.unicode_len();
    if m > n {
        return None;
    }
    let mut i: usize = 0;
    while i < m
        invariant
            i <= m,
            m <= n,
            n == s@.len(),
            m == lit@.len(),
            forall|j: int| 0 <= j < i ==> s@[j] == lit@[j],
        decreases m - i,
    {
        if s.get_char(i) != lit.get_char(i) {
            proof {
                if lit@.len() <= s@.len() && s@.subrange(0, lit@.len() as int) == lit@ {
                    assert(s@.subrange(0, lit@.len() as int)[i as int] == s@[i as int]);
                    assert(false);
                }
            }
            return None;
        }
        i += 1;
    }
    let rest = s.substring_char(m, n);
    proof {
        assert(s@.subrange(0, m as int) =~= lit@);
        assert(rest@ =~= s@.skip(m as int));
    }
    Some(rest)
}

fn parse_bool<'a>(s: &'a str) -> (r: Option<(bool, &'a str)>)
    ensures
        match r {
            Some(p) => spec_parse_bool(s@) == Some((p.0, p.1@)),
            None => spec_parse_bool(s@) is None,
        },
{
    match expect(s, "true") {
        Some(rest) => Some((true, rest)),
        None => match expect(s, "false") {
            Some(rest) => Some((false, rest)),
            None => None,
        },
    }
}

fn parse_opt_string<'a>(s: &'a str) -> (r: Option<(Option<String>, &'a str)>)
    ensures
        match r {
            Some(p) => spec_parse_opt_string(s@) == Some((opt_str_view(p.0), p.1@)),
            None => spec_parse_opt_string(s@) is None,
        },
{
    match expect(s, "null") {
        Some(rest) => Some((None, rest)),
        None => {
            let n = s.unicode_len();
            if n > 0 && s.get_char(0) == '"' {
                let tail = s.substring_char(1, n);
                proof {
                    assert(tail@ =~= s@.skip(1));
                }
                match parse_string_body(tail) {
                    Some((x, rest)) => Some((Some(x), rest)),
                    None => None,
                }
            } else {
                None
            }
        },
    }
}

fn parse_applier<'a>(s: &'a str) -> (r: Option<(Applier, &'a str)>)
    ensures
        match r {
            Some(p) => spec_parse_applier(s@) == Some((p.0@, p.1@)),
            None => spec_parse_applier(s@) is None,
        },
{
    let s1 = match expect(s, "{\"name\":") {
        Some(s1) => s1,
        None => {
            return None;
        },
    };
    let n1 = s1.unicode_len();
    if !(n1 > 0 && s1.get_char(0) == '"') {
        return None;
    }
    let tail = s1.substring_char(1, n1);
    proof {
        assert(tail@ =~= s1@.skip(1));
    }
    let (name, s2) = match parse_string_body(tail) {
        Some(p) => p,
        None => {
            return None;
        },
    };
    let s3 = match expect(s2, ",\"url\":") {
        Some(s3) => s3,
        None => {
            return None;
        },
    };
    let (url, s4) = match parse_opt_string(s3) {
        Some(p) => p,
        None => {
            return None;
        },
    };
    let s5 = match expect(s4, "}") {
        Some(s5) => s5,
        None => {
            return None;
        },
    };
    Some((Applier { name, url }, s5))
}

fn parse_source<'a>(s: &'a str) -> (r: Option<(Option<Applier>, &'a str)>)
    ensures
        match r {
            Some(p) => spec_parse_source(s@) == Some(
                (
                    match p.0 {
                        Some(a) => Some(a@),
                        None => None,
                    },
                    p.1@,
                ),
            ),
            None => spec_parse_source(s@) is None,
        },
{
    match expect(s, "null") {
        Some(rest) => Some((None, rest)),
        None => match parse_applier(s) {
            Some((a, rest)) => Some((Some(a), rest)),
            None => None,
        },
    }
}

impl Condition {
    /// Read a condition back from its JSON object form: the inverse of
    /// [`Condition::to_json`] on everything that function writes.
    pub fn from_json(s: &str) -> (r: Option<Condition>)
        ensures
            match r {
                Some(c) => spec_parse_condition(s@) == Some(c@),
                None => spec_parse_condition(s@) is None,
            },
    {
        let s1 = match expect(s, "{\"status\":") {
            Some(s1) => s1,
            None => {
                return None;
            },
        };
        let (status, s2) = match parse_bool(s1) {
            Some(p) => p,
            None => {
                return None;
            },
        };
        let s3 = match expect(s2, ",\"reason\":") {
            Some(s3) => s3,
            None => {
                return None;
            },
        };
        let (reason, s4) = match parse_opt_string(s3) {
            Some(p) => p,
            None => {
                return None;
            },
        };
        let s5 = match expect(s4, ",\"message\":") {
            Some(s5) => s5,
            None => {
                return None;
            },
        };
        let (message, s6) = match parse_opt_string(s5) {
            Some(p) => p,
            None => {
                return None;
            },
        };
        let s7 = match expect(s6, ",\"lastTransitionTime\":\"") {
            Some(s7) => s7,
            None => {
                return None;
            },
        };
        let (ts_text, s8) = match parse_string_body(s7) {
            Some(p) => p,
            None => {
                return None;
            },
        };
        let last_transition = match Timestamp::parse_rfc3339(ts_text.as_str()) {
            Some(t) => t,
            None => {
                return None;
            },
        };
        let s9 = match expect(s8, ",\"source\":") {
            Some(s9) => s9,
            None => {
                return None;
            },
        };
        let (source, s10) = match parse_source(s9) {
            Some(p) => p,
            None => {
                return None;
            },
        };
        let s11 = match expect(s10, "}") {
            Some(s11) => s11,
            None => {
                return None;
            },
        };
        if s11.unicode_len() != 0 {
            return None;
        }
        let c = Condition { status, reason, message, last_transition, source };
        proof {
            assert(spec_parse_condition(s@) == Some(c@));
        }
        Some(c)
    }
}


proof fn lemma_hex_char_val(d: int)
    requires
        0 <= d < 16,
    ensures
        hex_val(hex_char(d)) == d,
{
}

/// Consuming a literal from a text that starts with it leaves the rest.
proof fn lemma_expect_prefix(lit: Seq<char>, rest: Seq<char>)
    ensures
        spec_expect(lit + rest, lit) == Some(rest),
{
    assert((lit + rest).subrange(0, lit.len() as int) =~= lit);
    assert((lit + rest).skip(lit.len() as int) =~= rest);
}

/// A text whose character at `i` differs from the literal's does not
/// start with the literal.
proof fn lemma_expect_mismatch(s: Seq<char>, lit: Seq<char>, i: int)
    requires
        0 <= i < lit.len(),
        i < s.len(),
        s[i] != lit[i],
    ensures
        spec_expect(s, lit) is None,
{
    if lit.len() <= s.len() && s.subrange(0, lit.len() as int) == lit {
        assert(s.subrange(0, lit.len() as int)[i] == s[i]);
        assert(false);
    }
}

/// Reading a string body from an escaped text followed by the closing
/// quote recovers exactly the text that was escaped.
proof fn lemma_parse_escape(x: Seq<char>, rest: Seq<char>)
    ensures
        spec_parse_string_body(escape(x) + seq!['"'] + rest) == Some((x, rest)),
    decreases x.len(),
{
    broadcast use vstd::utf8::char_u32_cast;

    let s = escape(x) + seq!['"'] + rest;
    if x.len() == 0 {
        assert(escape(x) == Seq::<char>::empty());
        assert(s =~= seq!['"'] + rest);
        assert(s[0] == '"');
        assert(s.skip(1) =~= rest);
        assert(Seq::<char>::empty() =~= x);
    } else {
        let c = x[0];
        let x1 = x.skip(1);
        lemma_parse_escape(x1, rest);
        let s1 = escape(x1) + seq!['"'] + rest;
        assert(escape(x) == esc_char(c) + escape(x1));
        if c == '"' {
            assert(s =~= seq!['\\', '"'] + s1);
            assert(s[0] == '\\' && s[1] == '"');
            assert(s.skip(2) =~= s1);
            assert(spec_parse_string_body(s) == Some((seq![s[1]] + x1, rest)));
            assert(seq![s[1]] + x1 =~= x);
        } else if c == '\\' {
            assert(s =~= seq!['\\', '\\'] + s1);
            assert(s[0] == '\\' && s[1] == '\\');
            assert(s.skip(2) =~= s1);
            assert(spec_parse_string_body(s) == Some((seq![s[1]] + x1, rest)));
            assert(seq![s[1]] + x1 =~= x);
        } else if (c as u32) < 32 {
            let code = (c as u32) as int;
            assert(s =~= seq!['\\', 'u', '0', '0', hex_char(code / 16), hex_char(code % 16)] + s1);
            assert(s[0] == '\\' && s[1] == 'u' && s[2] == '0' && s[3] == '0');
            assert(s[4] == hex_char(code / 16));
            assert(s[5] == hex_char(code % 16));
            lemma_hex_char_val(code / 16);
            lemma_hex_char_val(code % 16);
            assert(hex_val(s[4]) * 16 + hex_val(s[5]) == code);
            assert(s.skip(6) =~= s1);
            let u: u32 = c as u32;
            vstd::utf8::char_u32_cast(c, u);
            assert(code as u32 == u);
            assert(((code as u32) as char) == c);
            assert(spec_parse_string_body(s) == Some((seq![c] + x1, rest)));
            assert(seq![c] + x1 =~= x);
        } else {
            assert(s =~= seq![c] + s1);
            assert(s[0] == c);
            assert(s.skip(1) =~= s1);
            assert(spec_parse_string_body(s) == Some((seq![c] + x1, rest)));
            assert(seq![c] + x1 =~= x);
        }
    }
}

/// Escaping a text of plain characters changes nothing.
proof fn lemma_escape_plain(s: Seq<char>)
    requires
        forall|i: int| 0 <= i < s.len() ==> plain_char(#[trigger] s[i]),
    ensures
        escape(s) == s,
    decreases s.len(),
{
    if s.len() == 0 {
        assert(escape(s) =~= s);
    } else {
        assert(plain_char(s[0]));
        assert forall|i: int| 0 <= i < s.skip(1).len() implies plain_char(#[trigger] s.skip(1)[i]) by {
            assert(s.skip(1)[i] == s[i + 1]);
        }
        lemma_escape_plain(s.skip(1));
        assert(esc_char(s[0]) == seq![s[0]]);
        assert(escape(s) =~= s);
    }
}

/// Every character of an RFC 3339 rendering stands as itself inside a
/// JSON string.
proof fn lemma_rfc_plain(t: Timestamp)
    requires
        t.wf(),
    ensures
        forall|i: int|
            0 <= i < rfc3339_of(t).len() ==> plain_char(#[trigger] rfc3339_of(t)[i]),
{
    let s = rfc3339_of(t);
    let y = t.year as int;
    let mo = t.month as int;
    let da = t.day as int;
    let h = t.hour as int;
    let mi = t.minute as int;
    let sec = t.second as int;
    assert forall|d: int| 0 <= d < 10 implies plain_char(#[trigger] digit_char(d)) by {}
    assert(s.len() == 20);
    assert(s[0] == digit_char(y / 1000));
    assert(s[1] == digit_char((y / 100) % 10));
    assert(s[2] == digit_char((y / 10) % 10));
    assert(s[3] == digit_char(y % 10));
    assert(s[4] == '-');
    assert(s[5] == digit_char(mo / 10));
    assert(s[6] == digit_char(mo % 10));
    assert(s[7] == '-');
    assert(s[8] == digit_char(da / 10));
    assert(s[9] == digit_char(da % 10));
    assert(s[10] == 'T');
    assert(s[11] == digit_char(h / 10));
    assert(s[12] == digit_char(h % 10));
    assert(s[13] == ':');
    assert(s[14] == digit_char(mi / 10));
    assert(s[15] == digit_char(mi % 10));
    assert(s[16] == ':');
    assert(s[17] == digit_char(sec / 10));
    assert(s[18] == digit_char(sec % 10));
    assert(s[19] == 'Z');
}

/// Reading an optional string from an encoded present value.
proof fn lemma_parse_opt_some(x: Seq<char>, rest: Seq<char>)
    ensures
        spec_parse_opt_string(jstr(x) + rest) == Some((Some(x), rest)),
{
    reveal_strlit("null");
    let s = jstr(x) + rest;
    assert(s[0] == '"');
    assert("null"@[0] == 'n');
    lemma_expect_mismatch(s, "null"@, 0);
    assert(s.skip(1) =~= escape(x) + seq!['"'] + rest);
    lemma_parse_escape(x, rest);
}

/// Reading an optional string back from whichever form it was encoded
/// in: a string literal or `null`.
proof fn lemma_parse_opt_any(o: Option<Seq<char>>, rest: Seq<char>)
    ensures
        spec_parse_opt_string(jopt(o) + rest) == Some((o, rest)),
{
    match o {
        Some(x) => {
            lemma_parse_opt_some(x, rest);
        },
        None => {
            reveal_strlit("null");
            lemma_expect_prefix("null"@, rest);
        },
    }
}

/// Reading an applier object back from its encoded form.
proof fn lemma_parse_applier_rt(a: ApplierView, rest: Seq<char>)
    ensures
        spec_parse_applier(json_of_applier(a) + rest) == Some((a, rest)),
{
    let s = json_of_applier(a) + rest;
    let u2 = "}"@ + rest;
    let u1 = jopt(a.url) + u2;
    let u0 = ",\"url\":"@ + u1;
    let t = jstr(a.name) + u0;
    assert(s =~= "{\"name\":"@ + t);
    lemma_expect_prefix("{\"name\":"@, t);
    assert(t[0] == '"');
    assert(t.skip(1) =~= escape(a.name) + seq!['"'] + u0);
    lemma_parse_escape(a.name, u0);
    lemma_expect_prefix(",\"url\":"@, u1);
    lemma_parse_opt_any(a.url, u2);
    lemma_expect_prefix("}"@, rest);
    assert(spec_parse_applier(s) == Some((ApplierView { name: a.name, url: a.url }, rest)));
    assert(ApplierView { name: a.name, url: a.url } =~= a);
}

/// Reading a source back from whichever form it was encoded in: an
/// applier object or `null`.
proof fn lemma_parse_source_any(o: Option<ApplierView>, rest: Seq<char>)
    ensures
        spec_parse_source(jopt_applier(o) + rest) == Some((o, rest)),
{
    reveal_strlit("null");
    reveal_strlit("{\"name\":");
    match o {
        Some(a) => {
            let s = jopt_applier(o) + rest;
            assert(s[0] == '{');
            assert("null"@[0] == 'n');
            lemma_expect_mismatch(s, "null"@, 0);
            lemma_parse_applier_rt(a, rest);
        },
        None => {
            lemma_expect_prefix("null"@, rest);
        },
    }
}

/// Reading a boolean back from its encoded text.
proof fn lemma_parse_bool_rt(b: bool, rest: Seq<char>)
    ensures
        spec_parse_bool(bool_text(b) + rest) == Some((b, rest)),
{
    reveal_strlit("true");
    reveal_strlit("false");
    if b {
        lemma_expect_prefix("true"@, rest);
    } else {
        let s = bool_text(b) + rest;
        assert(s[0] == 'f');
        assert("true"@[0] == 't');
        lemma_expect_mismatch(s, "true"@, 0);
        lemma_expect_prefix("false"@, rest);
    }
}

/// Encoding a condition and decoding the text yields an identical
/// value.  The transition time survives exactly because its RFC 3339
/// second-precision rendering is parsed back without loss.
#[verifier::rlimit(100)]
#[verifier::spinoff_prover]
pub proof fn lemma_condition_round_trip(c: ConditionView)
    requires
        c.wf(),
    ensures
        spec_parse_condition(json_of_condition(c)) == Some(c),
{
    let s = json_of_condition(c);
    let rfc = rfc3339_of(c.last_transition);
    let t10 = "}"@;
    let t9 = jopt_applier(c.source) + t10;
    let t8 = ",\"source\":"@ + t9;
    let t6 = rfc + seq!['"'] + t8;
    let t5 = ",\"lastTransitionTime\":\""@ + t6;
    let t4 = jopt(c.message) + t5;
    let t3 = ",\"message\":"@ + t4;
    let t2 = jopt(c.reason) + t3;
    let t1 = ",\"reason\":"@ + t2;
    let t0 = bool_text(c.status) + t1;
    assert(s =~= "{\"status\":"@ + t0);
    lemma_expect_prefix("{\"status\":"@, t0);
    assert(spec_expect(s, "{\"status\":"@) == Some(t0));
    lemma_parse_bool_rt(c.status, t1);
    assert(spec_parse_bool(t0) == Some((c.status, t1)));
    lemma_expect_prefix(",\"reason\":"@, t2);
    assert(spec_expect(t1, ",\"reason\":"@) == Some(t2));
    lemma_parse_opt_any(c.reason, t3);
    assert(spec_parse_opt_string(t2) == Some((c.reason, t3)));
    lemma_expect_prefix(",\"message\":"@, t4);
    assert(spec_expect(t3, ",\"message\":"@) == Some(t4));
    lemma_parse_opt_any(c.message, t5);
    assert(spec_parse_opt_string(t4) == Some((c.message, t5)));
    lemma_expect_prefix(",\"lastTransitionTime\":\""@, t6);
    assert(spec_expect(t5, ",\"lastTransitionTime\":\""@) == Some(t6));
    lemma_rfc_plain(c.last_transition);
    lemma_escape_plain(rfc);
    lemma_parse_escape(rfc, t8);
    assert(spec_parse_string_body(t6) == Some((rfc, t8)));
    crate::time::lemma_rfc3339_round_trip(c.last_transition);
    assert(spec_parse_rfc3339(rfc) == Some(c.last_transition));
    lemma_expect_prefix(",\"source\":"@, t9);
    assert(spec_expect(t8, ",\"source\":"@) == Some(t9));
    lemma_parse_source_any(c.source, t10);
    assert(spec_parse_source(t9) == Some((c.source, t10)));
    lemma_expect_prefix("}"@, Seq::<char>::empty());
    assert(t10 =~= "}"@ + Seq::<char>::empty());
    assert(spec_expect(t10, "}"@) == Some(Seq::<char>::empty()));
    assert(spec_parse_condition(s) == Some(
        ConditionView {
            status: c.status,
            reason: c.reason,
            message: c.message,
            last_transition: c.last_transition,
            source: c.source,
        },
    ));
    assert(ConditionView {
        status: c.status,
        reason: c.reason,
        message: c.message,
        last_transition: c.last_transition,
        source: c.source,
    } =~= c);
}

} // verus!
