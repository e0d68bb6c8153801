//! Expectations on completions built from matchers that must all pass.
use vstd::prelude::*;
use vstd::string::*;

use crate::complete::types::{kind_name, Completion, CompletionKind};
use crate::text::str_eq;

verus! {

/// A check on a list of completions.
pub trait Matcher {
    /// `Ok` where the completions meet the check, else a message saying what
    /// failed.
    fn check(&self, items: &[Completion]) -> Result<(), String>;
}

/// Expects no completions (`None`), or none of any of the given kinds.
pub struct Empty(pub Option<Vec<CompletionKind>>);

/// Expects the completions to start with these labels, in this order.
pub struct Starts(pub Vec<String>);

/// An expected completion: each field that is set must equal the
/// completion's.
pub struct CandidateMatch {
    pub label: Option<String>,
    pub kind: Option<CompletionKind>,
    pub insert_text: Option<String>,
}

/// Expects each candidate to match some completion.
pub struct Contains(pub Vec<CandidateMatch>);

/// Expects each candidate to match some completion, the first matches in
/// the candidates' order.
pub struct InOrder(pub Vec<CandidateMatch>);

/// A matcher of an expectation.
pub enum ExpectMatcher {
    Empty(Empty),
    Starts(Starts),
    Contains(Contains),
    InOrder(InOrder),
}

/// A collection of matchers that all must pass.
pub struct Expect(pub Vec<ExpectMatcher>);

/// Whether the completions meet [`Empty`] with these kinds.
pub open spec fn empty_holds(kinds: Option<Seq<CompletionKind>>, items: Seq<Completion>) -> bool {
    match kinds {
        None => items.len() == 0,
        Some(ks) => forall|i: int, j: int|
            0 <= i < ks.len() && 0 <= j < items.len() ==> #[trigger] items[j].kind != #[trigger] ks[i],
    }
}

/// Whether the completions start with these labels.
pub open spec fn starts_holds(labels: Seq<String>, items: Seq<Completion>) -> bool {
    &&& items.len() >= labels.len()
    &&& forall|i: int| 0 <= i < labels.len() ==> #[trigger] items[i].label@ == labels[i]@
}

/// The kinds an [`Empty`] matcher rules out, where it names some.
pub open spec fn empty_kinds(e: Empty) -> Option<Seq<CompletionKind>> {
    match e.0 {
        Some(v) => Some(v@),
        None => None,
    }
}

/// Whether some completion has the kind.
pub open spec fn kind_present(k: CompletionKind, items: Seq<Completion>) -> bool {
    exists|j: int| 0 <= j < items.len() && #[trigger] items[j].kind == k
}

/// The first of the kinds that some completion has.
pub open spec fn first_present_kind(ks: Seq<CompletionKind>, items: Seq<Completion>) -> CompletionKind
    decreases ks.len(),
{
    if ks.len() == 0 || kind_present(ks[0], items) {
        ks[0]
    } else {
        first_present_kind(ks.drop_first(), items)
    }
}

/// The decimal digits of a number.
pub open spec fn spec_decimal(n: nat) -> Seq<char>
    decreases n,
{
    if n < 10 {
        seq![((48 + n) as u8) as char]
    } else {
        spec_decimal(n / 10).push(((48 + n % 10) as u8) as char)
    }
}

/// The labels of the completions.
pub open spec fn item_labels(items: Seq<Completion>) -> Seq<Seq<char>> {
    items.map_values(|c: Completion| c.label@)
}

/// How the completions are listed in a failure message: their labels, as
/// `{:?}` writes a list of strings.
pub open spec fn list_text(items: Seq<Completion>) -> Seq<char> {
    debug_labels(item_labels(items))
}

/// What [`Empty`] says where it fails.
pub open spec fn empty_message(kinds: Option<Seq<CompletionKind>>, items: Seq<Completion>) -> Seq<char> {
    match kinds {
        None => "Expected no completions, got "@ + spec_decimal(items.len()) + ":\n"@ + list_text(items),
        Some(ks) => "Expected no completions of kind "@ + kind_name(first_present_kind(ks, items)),
    }
}

/// The leading labels that [`Starts`] compares: as many as it expects, or
/// all where there are fewer.
pub open spec fn head_labels(n: nat, items: Seq<Completion>) -> Seq<Seq<char>> {
    item_labels(items.take(if items.len() < n { items.len() as int } else { n as int }))
}

/// What [`Starts`] says where it fails.
pub open spec fn starts_message(labels: Seq<String>, items: Seq<Completion>) -> Seq<char> {
    "Expected to start with labels "@ + debug_labels(label_views(labels)) + ", got "@ + debug_labels(
        head_labels(labels.len(), items),
    )
}

/// Whether the completion has each field the candidate sets.
pub open spec fn candidate_holds(m: CandidateMatch, c: Completion) -> bool {
    &&& m.label matches Some(l) ==> l@ == c.label@
    &&& m.kind matches Some(k) ==> k == c.kind
    &&& m.insert_text matches Some(t) ==> t@ == c.insert_text@
}

/// The first field the completion does not have as the candidate sets it.
pub open spec fn candidate_miss(m: CandidateMatch, c: Completion) -> Seq<char> {
    if m.label matches Some(l) && l@ != c.label@ {
        "label"@
    } else if m.kind matches Some(k) && k != c.kind {
        "kind"@
    } else {
        "insert_text"@
    }
}

/// The first position from `j` on of a completion the candidate matches, or
/// -1.
pub open spec fn first_match_from(m: CandidateMatch, items: Seq<Completion>, j: int) -> int
    decreases items.len() - j,
{
    if j < 0 || j >= items.len() {
        -1
    } else if candidate_holds(m, items[j]) {
        j
    } else {
        first_match_from(m, items, j + 1)
    }
}

/// The first position of a completion the candidate matches, or -1.
pub open spec fn first_match(m: CandidateMatch, items: Seq<Completion>) -> int {
    first_match_from(m, items, 0)
}

/// Two texts joined by `, `, where both are there.
pub open spec fn join_fields(a: Seq<char>, b: Seq<char>) -> Seq<char> {
    if a.len() == 0 {
        b
    } else if b.len() == 0 {
        a
    } else {
        a + ", "@ + b
    }
}

/// A candidate as failure messages write it: `{ name: value, ... }` for each
/// field it sets.
pub open spec fn candidate_text(m: CandidateMatch) -> Seq<char> {
    let l = match m.label {
        Some(x) => "label: "@ + x@,
        None => Seq::empty(),
    };
    let k = match m.kind {
        Some(x) => "kind: "@ + kind_name(x),
        None => Seq::empty(),
    };
    let t = match m.insert_text {
        Some(x) => "insert_text: "@ + x@,
        None => Seq::empty(),
    };
    "{ "@ + join_fields(join_fields(l, k), t) + " }"@
}

/// A completion as failure messages write it.
pub open spec fn completion_text(c: Completion) -> Seq<char> {
    "{ label: "@ + c.label@ + ", kind: "@ + kind_name(c.kind) + ", insert_text: "@ + c.insert_text@ + " }"@
}

/// The message for a candidate that no completion matches.
pub open spec fn missing_message(m: CandidateMatch, items: Seq<Completion>) -> Seq<char> {
    "Missing ("@ + candidate_text(m) + ")\ngot: "@ + list_text(items)
}

/// The message for a match found before the one of the candidate before it.
pub open spec fn order_message(items: Seq<Completion>, idx: int, last: int) -> Seq<char> {
    "Out of order: expected ("@ + completion_text(items[idx]) + ") after ("@ + completion_text(items[last])
        + ")\ngot: "@ + list_text(items)
}

/// Whether every candidate matches some completion.
pub open spec fn contains_holds(ms: Seq<CandidateMatch>, items: Seq<Completion>) -> bool {
    forall|i: int| 0 <= i < ms.len() ==> #[trigger] first_match(ms[i], items) >= 0
}

/// Whether the candidate at `k` is the first that matches no completion.
pub open spec fn contains_fails_at(ms: Seq<CandidateMatch>, items: Seq<Completion>, k: int) -> bool {
    &&& 0 <= k < ms.len()
    &&& forall|i: int| 0 <= i < k ==> #[trigger] first_match(ms[i], items) >= 0
    &&& first_match(ms[k], items) < 0
}

/// Whether the first `k` candidates each match some completion, their first
/// matches in order.
pub open spec fn in_order_upto(ms: Seq<CandidateMatch>, items: Seq<Completion>, k: int) -> bool {
    &&& forall|i: int| 0 <= i < k ==> #[trigger] first_match(ms[i], items) >= 0
    &&& forall|i: int| 0 < i < k ==> first_match(ms[i - 1], items) <= #[trigger] first_match(ms[i], items)
}

/// Whether the candidate at `k` is where [`InOrder`] fails: those before it
/// pass, and it matches nothing or matches before the one before it.
pub open spec fn in_order_fails_at(ms: Seq<CandidateMatch>, items: Seq<Completion>, k: int) -> bool {
    &&& 0 <= k < ms.len()
    &&& in_order_upto(ms, items, k)
    &&& (first_match(ms[k], items) < 0 || (k > 0 && first_match(ms[k], items) < first_match(ms[k - 1], items)))
}

/// What [`InOrder`] says where it fails at `k`.
pub open spec fn in_order_message(ms: Seq<CandidateMatch>, items: Seq<Completion>, k: int) -> Seq<char> {
    if first_match(ms[k], items) < 0 {
        missing_message(ms[k], items)
    } else {
        order_message(items, first_match(ms[k], items), first_match(ms[k - 1], items))
    }
}

/// Whether the completions meet the matcher.
pub open spec fn matcher_passes(m: ExpectMatcher, items: Seq<Completion>) -> bool {
    match m {
        ExpectMatcher::Empty(e) => empty_holds(empty_kinds(e), items),
        ExpectMatcher::Starts(s) => starts_holds(s.0@, items),
        ExpectMatcher::Contains(c) => contains_holds(c.0@, items),
        ExpectMatcher::InOrder(o) => in_order_upto(o.0@, items, o.0@.len() as int),
    }
}

/// Whether [`Contains`] fails with this message: that of the first
/// candidate that matches nothing.
pub open spec fn contains_fails_with(ms: Seq<CandidateMatch>, items: Seq<Completion>, msg: Seq<char>) -> bool {
    exists|k: int| #[trigger] contains_fails_at(ms, items, k) && msg == missing_message(ms[k], items)
}

/// Whether [`InOrder`] fails with this message: that of the candidate where
/// it fails.
pub open spec fn in_order_fails_with(ms: Seq<CandidateMatch>, items: Seq<Completion>, msg: Seq<char>) -> bool {
    exists|k: int| #[trigger] in_order_fails_at(ms, items, k) && msg == in_order_message(ms, items, k)
}

/// Whether the matcher fails with this message.
pub open spec fn matcher_fails_with(m: ExpectMatcher, items: Seq<Completion>, msg: Seq<char>) -> bool {
    match m {
        ExpectMatcher::Empty(e) => !empty_holds(empty_kinds(e), items) && msg == empty_message(empty_kinds(e), items),
        ExpectMatcher::Starts(s) => !starts_holds(s.0@, items) && msg == starts_message(s.0@, items),
        ExpectMatcher::Contains(c) => contains_fails_with(c.0@, items, msg),
        ExpectMatcher::InOrder(o) => in_order_fails_with(o.0@, items, msg),
    }
}

/// A matcher that fails on a list of completions fails with one message
/// only, so the message an expectation reports for its first failing matcher
/// is the one that matcher reports when checked alone.
pub proof fn law_failure_message_is_determined(
    m: ExpectMatcher,
    items: Seq<Completion>,
    a: Seq<char>,
    b: Seq<char>,
)
    requires
        matcher_fails_with(m, items, a),
        matcher_fails_with(m, items, b),
    ensures
        a == b,
{
    match m {
        ExpectMatcher::Contains(c) => {
            let ms = c.0@;
            let ka = choose|k: int| #[trigger] contains_fails_at(ms, items, k) && a == missing_message(ms[k], items);
            let kb = choose|k: int| #[trigger] contains_fails_at(ms, items, k) && b == missing_message(ms[k], items);
            if ka < kb {
                assert(first_match(ms[ka], items) >= 0);
            } else if kb < ka {
                assert(first_match(ms[kb], items) >= 0);
            }
        },
        ExpectMatcher::InOrder(o) => {
            let ms = o.0@;
            let ka = choose|k: int| #[trigger] in_order_fails_at(ms, items, k) && a == in_order_message(ms, items, k);
            let kb = choose|k: int| #[trigger] in_order_fails_at(ms, items, k) && b == in_order_message(ms, items, k);
            if ka < kb {
                assert(first_match(ms[ka], items) >= 0);
                if ka > 0 {
                    assert(first_match(ms[ka - 1], items) <= first_match(ms[ka], items));
                }
            } else if kb < ka {
                assert(first_match(ms[kb], items) >= 0);
                if kb > 0 {
                    assert(first_match(ms[kb - 1], items) <= first_match(ms[kb], items));
                }
            }
        },
        _ => {},
    }
}

/// A matcher that fails with some message does not pass.
proof fn lemma_fails_not_passes(m: ExpectMatcher, items: Seq<Completion>, msg: Seq<char>)
    requires
        matcher_fails_with(m, items, msg),
    ensures
        !matcher_passes(m, items),
{
    match m {
        ExpectMatcher::Contains(c) => {
            let k = choose|k: int| #[trigger] contains_fails_at(c.0@, items, k) && msg == missing_message(c.0@[k], items);
            assert(first_match(c.0@[k], items) < 0);
        },
        ExpectMatcher::InOrder(o) => {
            let ms = o.0@;
            let k = choose|k: int| #[trigger] in_order_fails_at(ms, items, k) && msg == in_order_message(ms, items, k);
            if in_order_upto(ms, items, ms.len() as int) {
                assert(first_match(ms[k], items) >= 0);
                if k > 0 {
                    assert(first_match(ms[k - 1], items) <= first_match(ms[k], items));
                }
            }
        },
        _ => {},
    }
}

/// The `{:?}` text of a list of labels.
pub uninterp spec fn debug_labels(labels: Seq<Seq<char>>) -> Seq<char>;

/// The labels of a list of strings, as char sequences.
pub open spec fn label_views(labels: Seq<String>) -> Seq<Seq<char>> {
    labels.map_values(|s: String| s@)
}

/// The line that describes one matcher.
pub open spec fn matcher_line(m: ExpectMatcher) -> Seq<char> {
    match m {
        ExpectMatcher::Starts(s) => "Starts with: "@ + debug_labels(label_views(s.0@)) + "\n"@,
        ExpectMatcher::Contains(c) => "Contains: "@ + spec_decimal(c.0@.len()) + " items\n"@,
        ExpectMatcher::InOrder(o) => "In order: "@ + spec_decimal(o.0@.len()) + " items\n"@,
        ExpectMatcher::Empty(_) => "Empty (no completions expected)\n"@,
    }
}

/// The lines that describe the matchers, one after another.
pub open spec fn matcher_lines(ms: Seq<ExpectMatcher>) -> Seq<char>
    decreases ms.len(),
{
    if ms.len() == 0 {
        Seq::empty()
    } else {
        matcher_lines(ms.drop_last()) + matcher_line(ms.last())
    }
}

/// `format!("{:?}", labels)`.
#[verifier::external_body]
fn format_labels(labels: &Vec<String>) -> (res: String)
    ensures
        res@ == debug_labels(label_views(labels@)),
{
    format!("{:?}", labels)
}

/// The digit `d` as text.
fn digit_text(d: usize) -> (res: &'static str)
    requires
        d < 10,
    ensures
        res@ == seq![((48 + d) as u8) as char],
{
    match d {
        0 => {
            proof {
                reveal_strlit("0");
            }
            "0"
        },
        1 => {
            proof {
                reveal_strlit("1");
            }
            "1"
        },
        2 => {
            proof {
                reveal_strlit("2");
            }
            "2"
        },
        3 => {
            proof {
                reveal_strlit("3");
            }
            "3"
        },
        4 => {
            proof {
                reveal_strlit("4");
            }
            "4"
        },
        5 => {
            proof {
                reveal_strlit("5");
            }
            "5"
        },
        6 => {
            proof {
                reveal_strlit("6");
            }
            "6"
        },
        7 => {
            proof {
                reveal_strlit("7");
            }
            "7"
        },
        8 => {
            proof {
                reveal_strlit("8");
            }
            "8"
        },
        _ => {
            proof {
                reveal_strlit("9");
            }
            "9"
        },
    }
}

/// The decimal digits of the number, as `{}` writes it.
fn decimal_text(n: usize) -> (res: String)
    ensures
        res@ == spec_decimal(n as nat),
    decreases n,
{
    if n < 10 {
        String::from_str(digit_text(n))
    } else {
        let mut s = decimal_text(n / 10);
        s.append(digit_text(n % 10));
        s
    }
}

/// The labels of the completions, as a list.
fn labels_of(items: &[Completion]) -> (res: Vec<String>)
    ensures
        label_views(res@) == item_labels(items@),
{
    let mut out: Vec<String> = Vec::new();
    let mut i: usize = 0;
    while i < items.len()
        invariant
            i <= items@.len(),
            out@.len() == i,
            forall|k: int| 0 <= k < i ==> (#[trigger] out@[k])@ == items@[k].label@,
        decreases items.len() - i,
    {
        out.push(items[i].label.clone());
        i += 1;
    }
    assert(label_views(out@) =~= item_labels(items@));
    out
}

/// How the completions are listed in a failure message.
fn list_of(items: &[Completion]) -> (res: String)
    ensures
        res@ == list_text(items@),
{
    let labels = labels_of(items);
    format_labels(&labels)
}

impl Matcher for Empty {
    fn check(&self, items: &[Completion]) -> (res: Result<(), String>)
        ensures
            res is Ok <==> empty_holds(empty_kinds(*self), items@),
            res matches Err(msg) ==> msg@ == empty_message(empty_kinds(*self), items@),
    {
        match &self.0 {
            None => {
                if items.len() > 0 {
                    let mut msg = String::from_str("Expected no completions, got ");
                    let n = decimal_text(items.len());
                    msg.append(n.as_str());
                    msg.append(":\n");
                    let list = list_of(items);
                    msg.append(list.as_str());
                    return Err(msg);
                }
                Ok(())
            },
            Some(kinds) => {
                let mut i: usize = 0;
                while i < kinds.len()
                    invariant
                        i <= kinds@.len(),
                        self.0 == Some(*kinds),
                        forall|a: int, j: int|
                            0 <= a < i && 0 <= j < items@.len() ==> #[trigger] items@[j].kind
                                != #[trigger] kinds@[a],
                    decreases kinds.len() - i,
                {
                    let kind = kinds[i];
                    let mut j: usize = 0;
                    while j < items.len()
                        invariant
                            i < kinds@.len(),
                            self.0 == Some(*kinds),
                            kind == kinds@[i as int],
                            j <= items@.len(),
                            forall|a: int, b: int|
                                0 <= a < i && 0 <= b < items@.len() ==> #[trigger] items@[b].kind
                                    != #[trigger] kinds@[a],
                            forall|b: int| 0 <= b < j ==> #[trigger] items@[b].kind != kind,
                        decreases items.len() - j,
                    {
                        if items[j].kind == kind {
                            assert(items@[j as int].kind == kinds@[i as int]);
                            proof {
                                lemma_first_present_kind(kinds@, items@, i as int);
                            }
                            let mut msg = String::from_str("Expected no completions of kind ");
                            msg.append(kind.name());
                            return Err(msg);
                        }
                        j += 1;
                    }
                    i += 1;
                }
                Ok(())
            },
        }
    }
}

/// Where no kind before `i` is present and the kind at `i` is, the first
/// present kind is the one at `i`.
proof fn lemma_first_present_kind(ks: Seq<CompletionKind>, items: Seq<Completion>, i: int)
    requires
        0 <= i < ks.len(),
        kind_present(ks[i], items),
        forall|a: int, j: int| 0 <= a < i && 0 <= j < items.len() ==> #[trigger] items[j].kind != #[trigger] ks[a],
    ensures
        first_present_kind(ks, items) == ks[i],
    decreases i,
{
    if i > 0 {
        assert(!kind_present(ks[0], items)) by {
            if kind_present(ks[0], items) {
                let j = choose|j: int| 0 <= j < items.len() && #[trigger] items[j].kind == ks[0];
                assert(items[j].kind != ks[0]);
            }
        }
        let rest = ks.drop_first();
        assert forall|a: int, j: int| 0 <= a < i - 1 && 0 <= j < items.len() implies #[trigger] items[j].kind
            != #[trigger] rest[a] by {
            assert(rest[a] == ks[a + 1]);
        }
        assert(rest[i - 1] == ks[i]);
        lemma_first_present_kind(rest, items, i - 1);
    }
}

impl Matcher for Starts {
    fn check(&self, items: &[Completion]) -> (res: Result<(), String>)
        ensures
            res is Ok <==> starts_holds(self.0@, items@),
            res matches Err(msg) ==> msg@ == starts_message(self.0@, items@),
    {
        let n = self.0.len();
        let m = if items.len() < n {
            items.len()
        } else {
            n
        };
        let mut head: Vec<String> = Vec::new();
        let mut same = items.len() >= n;
        let mut i: usize = 0;
        while i < m
            invariant
                m <= n == self.0@.len(),
                m <= items@.len(),
                m == (if items@.len() < n { items@.len() } else { n as nat }),
                i <= m,
                head@.len() == i,
                forall|k: int| 0 <= k < i ==> (#[trigger] head@[k])@ == items@[k].label@,
                same == (items@.len() >= n && forall|k: int|
                    0 <= k < i ==> #[trigger] items@[k].label@ == self.0@[k]@),
            decreases m - i,
        {
            let label = items[i].label.clone();
            let eq = str_eq(label.as_str(), self.0[i].as_str());
            same = same && eq;
            head.push(label);
            i += 1;
        }
        if same {
            Ok(())
        } else {
            assert(label_views(head@) =~= head_labels(n as nat, items@));
            let mut msg = String::from_str("Expected to start with labels ");
            let expected = format_labels(&self.0);
            msg.append(expected.as_str());
            msg.append(", got ");
            let got = format_labels(&head);
            msg.append(got.as_str());
            Err(msg)
        }
    }
}
impl CandidateMatch {
    /// A candidate that sets only the label.
    pub fn from(s: &str) -> (res: Self)
        ensures
            res.label matches Some(l) && l@ == s@,
            res.kind is None,
            res.insert_text is None,
    {
        CandidateMatch { label: Some(String::from_str(s)), kind: None, insert_text: None }
    }

    /// `Ok` where the completion has each field the candidate sets; else the
    /// name of the first field that differs.
    pub fn matches(&self, completion: &Completion) -> (res: Result<(), String>)
        ensures
            res is Ok <==> candidate_holds(*self, *completion),
            res matches Err(f) ==> f@ == candidate_miss(*self, *completion),
    {
        if let Some(l) = &self.label {
            if !str_eq(l.as_str(), completion.label.as_str()) {
                return Err(String::from_str("label"));
            }
        }
        if let Some(k) = self.kind {
            if k != completion.kind {
                return Err(String::from_str("kind"));
            }
        }
        if let Some(t) = &self.insert_text {
            if !str_eq(t.as_str(), completion.insert_text.as_str()) {
                return Err(String::from_str("insert_text"));
            }
        }
        Ok(())
    }

    /// The candidate as failure messages write it.
    pub fn text(&self) -> (res: String)
        ensures
            res@ == candidate_text(*self),
    {
        let mut out = String::from_str("{ ");
        let mut any = false;
        if let Some(l) = &self.label {
            out.append("label: ");
            out.append(l.as_str());
            any = true;
        }
        proof {
            reveal_strlit("label: ");
            reveal_strlit("kind: ");
            reveal_strlit("insert_text: ");
            reveal_strlit(", ");
        }
        if let Some(k) = self.kind {
            if any {
                out.append(", ");
            }
            out.append("kind: ");
            out.append(k.name());
            any = true;
        }
        if let Some(t) = &self.insert_text {
            if any {
                out.append(", ");
            }
            out.append("insert_text: ");
            out.append(t.as_str());
        }
        out.append(" }");
        assert(out@ =~= candidate_text(*self));
        out
    }

    /// The first position of a completion the candidate matches.
    pub fn position_in(&self, items: &[Completion]) -> (res: Option<usize>)
        ensures
            match res {
                Some(j) => j as int == first_match(*self, items@),
                None => first_match(*self, items@) == -1,
            },
    {
        let mut j: usize = 0;
        while j < items.len()
            invariant
                j <= items@.len(),
                first_match(*self, items@) == first_match_from(*self, items@, j as int),
            decreases items.len() - j,
        {
            if self.matches(&items[j]).is_ok() {
                return Some(j);
            }
            j += 1;
        }
        None
    }
}

/// A completion as failure messages write it.
fn completion_text_of(c: &Completion) -> (res: String)
    ensures
        res@ == completion_text(*c),
{
    let mut out = String::from_str("{ label: ");
    out.append(c.label.as_str());
    out.append(", kind: ");
    out.append(c.kind.name());
    out.append(", insert_text: ");
    out.append(c.insert_text.as_str());
    out.append(" }");
    out
}

/// The message for a candidate that no completion matches.
fn missing(items: &[Completion], m: &CandidateMatch) -> (res: String)
    ensures
        res@ == missing_message(*m, items@),
{
    let mut out = String::from_str("Missing (");
    let t = m.text();
    out.append(t.as_str());
    out.append(")\ngot: ");
    let list = list_of(items);
    out.append(list.as_str());
    out
}

/// The message for the match at `idx` found before the one at `last`.
fn out_of_order(items: &[Completion], idx: usize, last: usize) -> (res: String)
    requires
        idx < items@.len(),
        last < items@.len(),
    ensures
        res@ == order_message(items@, idx as int, last as int),
{
    let mut out = String::from_str("Out of order: expected (");
    let a = completion_text_of(&items[idx]);
    out.append(a.as_str());
    out.append(") after (");
    let b = completion_text_of(&items[last]);
    out.append(b.as_str());
    out.append(")\ngot: ");
    let list = list_of(items);
    out.append(list.as_str());
    out
}

/// Where `first_match_from` finds a position, it is a completion the
/// candidate matches, and within the list.
proof fn lemma_first_match_from(m: CandidateMatch, items: Seq<Completion>, j: int)
    ensures
        first_match_from(m, items, j) >= 0 ==> first_match_from(m, items, j) < items.len(),
        first_match_from(m, items, j) >= -1,
    decreases items.len() - j,
{
    if 0 <= j < items.len() && !candidate_holds(m, items[j]) {
        lemma_first_match_from(m, items, j + 1);
    }
}

impl Matcher for Contains {
    fn check(&self, items: &[Completion]) -> (res: Result<(), String>)
        ensures
            res is Ok <==> contains_holds(self.0@, items@),
            res matches Err(msg) ==> contains_fails_with(self.0@, items@, msg@),
    {
        let mut i: usize = 0;
        while i < self.0.len()
            invariant
                i <= self.0@.len(),
                forall|k: int| 0 <= k < i ==> #[trigger] first_match(self.0@[k], items@) >= 0,
            decreases self.0.len() - i,
        {
            match self.0[i].position_in(items) {
                Some(_) => {},
                None => {
                    let msg = missing(items, &self.0[i]);
                    assert(contains_fails_at(self.0@, items@, i as int));

                    return Err(msg);
                },
            }
            i += 1;
        }
        Ok(())
    }
}

impl Matcher for InOrder {
    fn check(&self, items: &[Completion]) -> (res: Result<(), String>)
        ensures
            res is Ok <==> in_order_upto(self.0@, items@, self.0@.len() as int),
            res matches Err(msg) ==> in_order_fails_with(self.0@, items@, msg@),
    {
        let mut last: Option<usize> = None;
        let mut i: usize = 0;
        while i < self.0.len()
            invariant
                i <= self.0@.len(),
                in_order_upto(self.0@, items@, i as int),
                i == 0 <==> last is None,
                last matches Some(l) ==> l as int == first_match(self.0@[i - 1], items@) && l < items@.len(),
            decreases self.0.len() - i,
        {
            let idx = match self.0[i].position_in(items) {
                Some(j) => j,
                None => {
                    let msg = missing(items, &self.0[i]);
                    assert(in_order_fails_at(self.0@, items@, i as int));
                    return Err(msg);
                },
            };
            proof {
                lemma_first_match_from(self.0@[i as int], items@, 0);
            }
            if let Some(l) = last {
                if idx < l {
                    let msg = out_of_order(items, idx, l);
                    assert(in_order_fails_at(self.0@, items@, i as int));
                    return Err(msg);
                }
            }
            last = Some(idx);
            i += 1;
        }
        Ok(())
    }
}

impl Expect {
    /// An expectation with no matchers.
    pub fn new() -> (res: Self)
        ensures
            res.0@.len() == 0,
    {
        Expect(Vec::new())
    }

    /// The expectation with one more matcher.
    pub fn and(self, m: ExpectMatcher) -> (res: Self)
        ensures
            res.0@ == self.0@.push(m),
    {
        let mut v = self.0;
        v.push(m);
        Expect(v)
    }

    /// `Ok` where every matcher passes; else the message of the first that
    /// fails, and the matchers after it are not run.
    pub fn check(&self, items: &[Completion]) -> (res: Result<(), String>)
        ensures
            res is Ok <==> forall|i: int| 0 <= i < self.0@.len() ==> matcher_passes(#[trigger] self.0@[i], items@),
            res matches Err(msg) ==> exists|k: int|
                0 <= k < self.0@.len() && (forall|i: int| 0 <= i < k ==> matcher_passes(#[trigger] self.0@[i], items@))
                    && matcher_fails_with(#[trigger] self.0@[k], items@, msg@),
            res matches Err(msg) ==> forall|k: int, other: Seq<char>|
                0 <= k < self.0@.len() && (forall|i: int| 0 <= i < k ==> matcher_passes(#[trigger] self.0@[i], items@))
                    && #[trigger] matcher_fails_with(self.0@[k], items@, other) ==> other == msg@,
    {
        let mut i: usize = 0;
        while i < self.0.len()
            invariant
                i <= self.0@.len(),
                forall|k: int| 0 <= k < i ==> matcher_passes(#[trigger] self.0@[k], items@),
            decreases self.0.len() - i,
        {
            let r = match &self.0[i] {
                ExpectMatcher::Empty(e) => e.check(items),
                ExpectMatcher::Starts(s) => s.check(items),
                ExpectMatcher::Contains(c) => c.check(items),
                ExpectMatcher::InOrder(o) => o.check(items),
            };
            match r {
                Ok(()) => {},
                Err(msg) => {
                    assert(matcher_fails_with(self.0@[i as int], items@, msg@));
                    proof {
                        assert forall|k: int, other: Seq<char>|
                            0 <= k < self.0@.len() && (forall|j: int| 0 <= j < k ==> matcher_passes(#[trigger] self.0@[j], items@))
                                && #[trigger] matcher_fails_with(self.0@[k], items@, other) implies other == msg@ by {
                            if k < i {
                                lemma_fails_not_passes(self.0@[k], items@, other);
                            } else if k > i {
                                assert(matcher_passes(self.0@[i as int], items@));
                                lemma_fails_not_passes(self.0@[i as int], items@, msg@);
                            } else {
                                law_failure_message_is_determined(self.0@[k], items@, other, msg@);
                            }
                        }
                    }
                    return Err(msg);
                },
            }
            i += 1;
        }
        Ok(())
    }

    /// A description of the matchers for failure messages: one line each, or
    /// `(no expectations set)` where there are none.
    pub fn format_expected(&self) -> (res: String)
        ensures
            self.0@.len() == 0 ==> res@ == "(no expectations set)\n"@,
            self.0@.len() > 0 ==> res@ == matcher_lines(self.0@),
    {
        if self.0.len() == 0 {
            return String::from_str("(no expectations set)\n");
        }
        let mut out = String::new();
        let mut i: usize = 0;
        while i < self.0.len()
            invariant
                i <= self.0@.len(),
                out@ == matcher_lines(self.0@.subrange(0, i as int)),
            decreases self.0.len() - i,
        {
            proof {
                assert(self.0@.subrange(0, i + 1).drop_last() =~= self.0@.subrange(0, i as int));
            }
            match &self.0[i] {
                ExpectMatcher::Starts(s) => {
                    out.append("Starts with: ");
                    let labels = format_labels(&s.0);
                    out.append(labels.as_str());
                    out.append("\n");
                },
                ExpectMatcher::Contains(c) => {
                    out.append("Contains: ");
                    let n = decimal_text(c.0.len());
                    out.append(n.as_str());
                    out.append(" items\n");
                },
                ExpectMatcher::InOrder(o) => {
                    out.append("In order: ");
                    let n = decimal_text(o.0.len());
                    out.append(n.as_str());
                    out.append(" items\n");
                },
                ExpectMatcher::Empty(_) => {
                    out.append("Empty (no completions expected)\n");
                },
            }
            i += 1;
        }
        proof {
            assert(self.0@.subrange(0, self.0@.len() as int) =~= self.0@);
        }
        out
    }
}

} // verus!
