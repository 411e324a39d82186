use vstd::prelude::*;
use crate::text::str_eq;

verus! {

/// The handle by which the page's elements are known to the library: the
/// code that walks the page gives each element it hands over a number of its
/// own, and finds the element again by that number.
pub type ElementId = u64;

/// The element that a hint names, with whether it is an HTML element (only
/// an HTML element can be clicked, focused or hovered).
#[derive(Clone, Copy, Debug, PartialEq, Eq, Structural)]
pub struct HintTarget {
    pub element: ElementId,
    pub is_html: bool,
}

/// A hint: its label (the keys that name it) and its target.
pub struct HintEntry {
    pub label: String,
    pub target: HintTarget,
}

/// The hints shown on a page, from label to target.  No label occurs twice.
pub struct HintMap {
    entries: Vec<HintEntry>,
}

/// Whether some entry of `s` has the label `k`.
pub open spec fn has_label(s: Seq<HintEntry>, k: Seq<char>) -> bool {
    exists|i: int| 0 <= i < s.len() && (#[trigger] s[i]).label@ == k
}

/// The map that the entries `s` stand for.
pub open spec fn entries_view(s: Seq<HintEntry>) -> Map<Seq<char>, HintTarget> {
    Map::new(
        |k: Seq<char>| has_label(s, k),
        |k: Seq<char>| s[choose|i: int| 0 <= i < s.len() && (#[trigger] s[i]).label@ == k].target,
    )
}

/// No two entries of `s` have the same label.
pub open spec fn distinct_labels(s: Seq<HintEntry>) -> bool {
    forall|i: int, j: int|
        0 <= i < s.len() && 0 <= j < s.len() && i != j ==> (#[trigger] s[i]).label@ != (#[trigger] s[j]).label@
}

/// In entries with distinct labels, the entry at `i` is the one that the map
/// finds for its label.
proof fn lemma_entry_found(s: Seq<HintEntry>, i: int)
    requires
        distinct_labels(s),
        0 <= i < s.len(),
    ensures
        entries_view(s).contains_key(s[i].label@),
        entries_view(s)[s[i].label@] == s[i].target,
{
    let k = s[i].label@;
    assert(has_label(s, k));
    let c = choose|j: int| 0 <= j < s.len() && (#[trigger] s[j]).label@ == k;
    assert(c == i);
}

impl View for HintMap {
    type V = Map<Seq<char>, HintTarget>;

    closed spec fn view(&self) -> Map<Seq<char>, HintTarget> {
        entries_view(self.entries@)
    }
}

impl HintMap {
    #[verifier::type_invariant]
    spec fn inv(self) -> bool {
        distinct_labels(self.entries@)
    }

    /// A map with no hint.
    pub fn new() -> (r: HintMap)
        ensures
            r@ == Map::<Seq<char>, HintTarget>::empty(),
    {
        let r = HintMap { entries: Vec::new() };
        assert(r@ =~= Map::<Seq<char>, HintTarget>::empty());
        r
    }

    /// The target of the hint labelled `label`, if there is one.
    pub fn get(&self, label: &str) -> (r: Option<HintTarget>)
        ensures
            r == self@.get(label@),
    {
        proof {
            use_type_invariant(self);
        }
        let n: usize = self.entries.len();
        let mut i: usize = 0;
        while i < n
            invariant
                n == self.entries@.len(),
                i <= n,
                distinct_labels(self.entries@),
                forall|j: int| 0 <= j < i ==> (#[trigger] self.entries@[j]).label@ != label@,
            decreases n - i,
        {
            if str_eq(self.entries[i].label.as_str(), label) {
                proof {
                    lemma_entry_found(self.entries@, i as int);
                }
                return Some(self.entries[i].target);
            }
            i = i + 1;
        }
        assert(!self@.contains_key(label@));
        None
    }

    /// Adds the hint `label`, or gives it a new target where it exists.
    pub fn insert(&mut self, label: String, target: HintTarget)
        ensures
            final(self)@ == old(self)@.insert(label@, target),
    {
        proof {
            use_type_invariant(&*self);
        }
        let mut entries: Vec<HintEntry> = Vec::new();
        std::mem::swap(&mut entries, &mut self.entries);
        let ghost s = entries@;
        let ghost k = label@;
        let n: usize = entries.len();
        let mut i: usize = 0;
        while i < n
            invariant
                n == entries@.len(),
                entries@ == s,
                old(self)@ == entries_view(s),
                k == label@,
                i <= n,
                distinct_labels(s),
                forall|j: int| 0 <= j < i ==> (#[trigger] s[j]).label@ != k,
            decreases n - i,
        {
            if str_eq(entries[i].label.as_str(), label.as_str()) {
                entries.set(i, HintEntry { label, target });
                proof {
                    let s2 = entries@;
                    assert(forall|j: int| 0 <= j < s.len() ==> (#[trigger] s2[j]).label@ == s[j].label@);
                    assert(distinct_labels(s2));
                    lemma_entry_found(s2, i as int);
                    assert forall|x: Seq<char>| has_label(s2, x) <==> has_label(s, x) by {
                        if has_label(s2, x) {
                            let j = choose|j: int| 0 <= j < s2.len() && (#[trigger] s2[j]).label@ == x;
                            assert(s[j].label@ == x);
                        }
                        if has_label(s, x) {
                            let j = choose|j: int| 0 <= j < s.len() && (#[trigger] s[j]).label@ == x;
                            assert(s2[j].label@ == x);
                        }
                    }
                    assert forall|x: Seq<char>| #[trigger] has_label(s, x) && x != k implies
                        entries_view(s2)[x] == entries_view(s)[x] by {
                        let j = choose|j: int| 0 <= j < s.len() && (#[trigger] s[j]).label@ == x;
                        lemma_entry_found(s, j);
                        lemma_entry_found(s2, j);
                    }
                    assert(entries_view(s2) =~= entries_view(s).insert(k, target));
                }
                self.entries = entries;
                return;
            }
            i = i + 1;
        }
        entries.push(HintEntry { label, target });
        proof {
            let s2 = entries@;
            assert(s2.len() == s.len() + 1);
            assert(forall|j: int| 0 <= j < s.len() ==> (#[trigger] s2[j]) == s[j]);
            assert(distinct_labels(s2));
            lemma_entry_found(s2, s.len() as int);
            assert forall|x: Seq<char>| has_label(s2, x) <==> (has_label(s, x) || x == k) by {
                if has_label(s2, x) {
                    let j = choose|j: int| 0 <= j < s2.len() && (#[trigger] s2[j]).label@ == x;
                    if j < s.len() {
                        assert(s[j].label@ == x);
                    }
                }
                if has_label(s, x) {
                    let j = choose|j: int| 0 <= j < s.len() && (#[trigger] s[j]).label@ == x;
                    assert(s2[j].label@ == x);
                }
            }
            assert forall|x: Seq<char>| #[trigger] has_label(s, x) && x != k implies
                entries_view(s2)[x] == entries_view(s)[x] by {
                let j = choose|j: int| 0 <= j < s.len() && (#[trigger] s[j]).label@ == x;
                lemma_entry_found(s, j);
                lemma_entry_found(s2, j);
            }
            assert(entries_view(s2) =~= entries_view(s).insert(k, target));
        }
        self.entries = entries;
    }
}

} // verus!
