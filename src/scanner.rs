//! Per-scan state: the index of pattern matches that the host queries, and
//! the record of matching rules that the host fills in.
use vstd::prelude::*;

verus! {

/// Dense handle of a rule, assigned when the rule set is compiled.
pub type RuleId = i32;

/// Dense handle of a pattern, assigned when the rule set is compiled.
pub type PatternId = i32;

/// True when the offsets are in strictly increasing order.
pub open spec fn strictly_sorted(s: Seq<i64>) -> bool {
    forall|i: int, j: int| 0 <= i < j < s.len() ==> s[i] < s[j]
}

/// The offsets recorded for pattern `p`, or none for an unknown pattern.
pub open spec fn offsets_of(idx: Seq<Seq<i64>>, p: int) -> Seq<i64> {
    if 0 <= p < idx.len() {
        idx[p]
    } else {
        Seq::empty()
    }
}

/// The pattern was found somewhere in the scanned data.
pub open spec fn pattern_matched(idx: Seq<Seq<i64>>, p: int) -> bool {
    offsets_of(idx, p).len() > 0
}

/// The pattern was found starting exactly at offset `o`.
pub open spec fn pattern_matched_at(idx: Seq<Seq<i64>>, p: int, o: int) -> bool {
    exists|k: int| 0 <= k < offsets_of(idx, p).len() && offsets_of(idx, p)[k] == o
}

/// The pattern was found at some offset in the inclusive range `[lo, hi]`.
pub open spec fn pattern_matched_in(idx: Seq<Seq<i64>>, p: int, lo: int, hi: int) -> bool {
    exists|k: int|
        0 <= k < offsets_of(idx, p).len() && lo <= offsets_of(idx, p)[k] && offsets_of(idx, p)[k]
            <= hi
}

/// A pattern was found somewhere exactly when it was found at some offset
/// between the smallest and the largest 64-bit offsets.
pub proof fn lemma_matched_iff_matched_in_full_range(idx: Seq<Seq<i64>>, p: int)
    ensures
        pattern_matched(idx, p) <==> pattern_matched_in(idx, p, i64::MIN as int, i64::MAX as int),
{
    if pattern_matched(idx, p) {
        let o = offsets_of(idx, p)[0];
        assert(i64::MIN <= o <= i64::MAX);
    }
}

/// An unknown pattern id is found nowhere, and an unknown rule id changes
/// neither the bitmap nor the list of matching rules.
pub proof fn lemma_unknown_ids_match_nothing(
    idx: Seq<Seq<i64>>,
    p: int,
    o: int,
    lo: int,
    hi: int,
    bitmap: Seq<bool>,
    matching: Seq<RuleId>,
    id: RuleId,
)
    requires
        !(0 <= p < idx.len()),
        !(0 <= id < bitmap.len()),
    ensures
        !pattern_matched(idx, p),
        !pattern_matched_at(idx, p, o),
        !pattern_matched_in(idx, p, lo, hi),
        report_step(bitmap, matching, id) == (bitmap, matching),
{
}

/// Index of the offsets at which each pattern was found during one scan,
/// keyed by pattern id. The offsets of each pattern are kept sorted and
/// free of repetitions, so that queries run by binary search.
pub struct PatternMatches {
    offsets: Vec<Vec<i64>>,
}

impl PatternMatches {
    /// For each pattern id, the offsets at which it was found, in increasing order.
    pub closed spec fn view(&self) -> Seq<Seq<i64>> {
        self.offsets@.map_values(|v: Vec<i64>| v@)
    }

    pub closed spec fn wf(&self) -> bool {
        forall|p: int| 0 <= p < self.offsets@.len() ==> strictly_sorted(#[trigger] self.offsets@[p]@)
    }

    /// An index for `num_patterns` patterns, none of them found yet.
    pub fn new(num_patterns: usize) -> (r: PatternMatches)
        ensures
            r.wf(),
            r@.len() == num_patterns,
            forall|p: int| 0 <= p < num_patterns ==> (#[trigger] r@[p]).len() == 0,
    {
        let mut offsets: Vec<Vec<i64>> = Vec::new();
        let mut i: usize = 0;
        while i < num_patterns
            invariant
                i <= num_patterns,
                offsets@.len() == i,
                forall|p: int| 0 <= p < i ==> (#[trigger] offsets@[p])@.len() == 0,
            decreases num_patterns - i,
        {
            offsets.push(Vec::new());
            i = i + 1;
        }
        let r = PatternMatches { offsets };
        assert forall|p: int| 0 <= p < num_patterns implies (#[trigger] r@[p]).len() == 0 by {
            assert(r.offsets@[p]@.len() == 0);
        }
        r
    }

    /// Number of patterns that the index knows of.
    pub fn num_patterns(&self) -> (r: usize)
        ensures
            r == self@.len(),
    {
        self.offsets.len()
    }

    /// Records that pattern `pattern_id` was found at `offset`. An unknown
    /// pattern id leaves the index as it was; recording an offset twice keeps
    /// one copy.
    pub fn record(&mut self, pattern_id: PatternId, offset: i64)
        requires
            old(self).wf(),
        ensures
            final(self).wf(),
            final(self)@.len() == old(self)@.len(),
            forall|p: int|
                p != pattern_id ==> #[trigger] offsets_of(final(self)@, p) == offsets_of(old(self)@, p),
            forall|o: int|
                #[trigger] pattern_matched_at(final(self)@, pattern_id as int, o) <==> (
                pattern_matched_at(old(self)@, pattern_id as int, o) || (o == offset && 0
                    <= pattern_id < old(self)@.len())),
    {
        if pattern_id < 0 || pattern_id as usize >= self.offsets.len() {
            return;
        }
        let p = pattern_id as usize;
        let pos = lower_bound(&self.offsets[p], offset);
        if pos < self.offsets[p].len() && self.offsets[p][pos] == offset {
            assert(offsets_of(self@, pattern_id as int) == self.offsets@[p as int]@);
            assert(pattern_matched_at(self@, pattern_id as int, offset as int));
            return;
        }
        let ghost before = self.offsets@[p as int]@;
        let mut row: Vec<i64> = self.offsets[p].clone();
        assert(row@ == before);
        row.insert(pos, offset);
        let ghost after = row@;
        assert(strictly_sorted(after)) by {
            assert forall|i: int, j: int| 0 <= i < j < after.len() implies after[i] < after[j] by {
                if j < pos {
                } else if j == pos {
                    assert(after[i] == before[i]);
                } else if i < pos {
                    assert(after[j] == before[j - 1]);
                    assert(before[i] < before[j - 1] || i == j - 1);
                } else if i == pos {
                    assert(after[j] == before[j - 1]);
                    assert(before[j - 1] >= offset);
                } else {
                    assert(after[i] == before[i - 1]);
                    assert(after[j] == before[j - 1]);
                }
            }
        }
        self.offsets.set(p, row);
        assert forall|o: int|
            #[trigger] pattern_matched_at(self@, pattern_id as int, o) <==> (pattern_matched_at(
                old(self)@,
                pattern_id as int,
                o,
            ) || o == offset) by {
            assert(offsets_of(self@, pattern_id as int) == after);
            assert(offsets_of(old(self)@, pattern_id as int) == before);
            if pattern_matched_at(self@, pattern_id as int, o) {
                let k = choose|k: int| 0 <= k < after.len() && after[k] == o;
                if k < pos {
                    assert(before[k] == o);
                } else if k > pos {
                    assert(before[k - 1] == o);
                }
            }
            if pattern_matched_at(old(self)@, pattern_id as int, o) {
                let k = choose|k: int| 0 <= k < before.len() && before[k] == o;
                if k < pos {
                    assert(after[k] == o);
                } else {
                    assert(after[k + 1] == o);
                }
            }
            if o == offset {
                assert(after[pos as int] == o);
            }
        }
        assert forall|p2: int| p2 != pattern_id implies #[trigger] offsets_of(self@, p2) == offsets_of(
            old(self)@,
            p2,
        ) by {
            if 0 <= p2 < self.offsets@.len() {
                assert(self.offsets@[p2] == old(self).offsets@[p2]);
            }
        }
    }

    /// Whether the pattern was found anywhere: 1 if so, else 0.
    pub fn is_match(&self, pattern_id: PatternId) -> (r: i32)
        requires
            self.wf(),
        ensures
            r == (if pattern_matched(self@, pattern_id as int) { 1i32 } else { 0i32 }),
            !(0 <= pattern_id < self@.len()) ==> r == 0,
    {
        if pattern_id < 0 || pattern_id as usize >= self.offsets.len() {
            return 0;
        }
        if self.offsets[pattern_id as usize].len() > 0 {
            1
        } else {
            0
        }
    }

    /// Whether the pattern was found starting exactly at `offset`: 1 if so, else 0.
    pub fn is_match_at(&self, pattern_id: PatternId, offset: i64) -> (r: i32)
        requires
            self.wf(),
        ensures
            r == (if pattern_matched_at(self@, pattern_id as int, offset as int) { 1i32 } else { 0i32 }),
            !(0 <= pattern_id < self@.len()) ==> r == 0,
    {
        if pattern_id < 0 || pattern_id as usize >= self.offsets.len() {
            return 0;
        }
        let row = &self.offsets[pattern_id as usize];
        assert(offsets_of(self@, pattern_id as int) == row@);
        let pos = lower_bound(row, offset);
        if pos < row.len() && row[pos] == offset {
            1
        } else {
            assert(!pattern_matched_at(self@, pattern_id as int, offset as int)) by {
                if pattern_matched_at(self@, pattern_id as int, offset as int) {
                    let k = choose|k: int| 0 <= k < row@.len() && row@[k] == offset;
                    if k > pos {
                        assert(row@[pos as int] < row@[k]);
                    }
                }
            }
            0
        }
    }

    /// Whether the pattern was found at some offset within the inclusive
    /// range `[lower_bound, upper_bound]`: 1 if so, else 0.
    pub fn is_match_in(&self, pattern_id: PatternId, lower: i64, upper: i64) -> (r: i32)
        requires
            self.wf(),
        ensures
            r == (if pattern_matched_in(self@, pattern_id as int, lower as int, upper as int) {
                1i32
            } else {
                0i32
            }),
            !(0 <= pattern_id < self@.len()) ==> r == 0,
    {
        if pattern_id < 0 || pattern_id as usize >= self.offsets.len() {
            return 0;
        }
        let row = &self.offsets[pattern_id as usize];
        assert(offsets_of(self@, pattern_id as int) == row@);
        let pos = lower_bound(row, lower);
        if pos < row.len() && row[pos] <= upper {
            1
        } else {
            assert(!pattern_matched_in(self@, pattern_id as int, lower as int, upper as int)) by {
                if pattern_matched_in(self@, pattern_id as int, lower as int, upper as int) {
                    let k = choose|k: int|
                        0 <= k < row@.len() && lower <= row@[k] && row@[k] <= upper;
                    if k > pos {
                        assert(row@[pos as int] < row@[k]);
                    }
                }
            }
            0
        }
    }
}

/// The effect of reporting rule `id` on a bitmap and a list of matching
/// rules: the rule's bit is set, and the rule is appended to the list the
/// first time only. An id outside the bitmap changes nothing.
pub open spec fn report_step(bitmap: Seq<bool>, matching: Seq<RuleId>, id: RuleId) -> (Seq<
    bool>, Seq<RuleId>) {
    if 0 <= id < bitmap.len() && !bitmap[id as int] {
        (bitmap.update(id as int, true), matching.push(id))
    } else {
        (bitmap, matching)
    }
}

/// The effect of reporting each rule of `ids`, in order.
pub open spec fn replay(bitmap: Seq<bool>, matching: Seq<RuleId>, ids: Seq<RuleId>) -> (Seq<
    bool>, Seq<RuleId>)
    decreases ids.len(),
{
    if ids.len() == 0 {
        (bitmap, matching)
    } else {
        let prev = replay(bitmap, matching, ids.drop_last());
        report_step(prev.0, prev.1, ids.last())
    }
}

/// The bitmap of a scan over `num_rules` rules before any rule matched.
pub open spec fn empty_bitmap(num_rules: nat) -> Seq<bool> {
    Seq::new(num_rules, |i: int| false)
}

/// Rule `i` is among the reported ids.
pub open spec fn reported(ids: Seq<RuleId>, i: int) -> bool {
    exists|k: int| 0 <= k < ids.len() && ids[k] as int == i
}

/// Bit `i` of the bitmap is set after a scan exactly when rule `i` was
/// reported at least once during it, and the bitmap keeps its length.
pub proof fn lemma_bitmap_bit_iff_reported(num_rules: nat, ids: Seq<RuleId>, i: int)
    requires
        0 <= i < num_rules,
    ensures
        replay(empty_bitmap(num_rules), Seq::empty(), ids).0.len() == num_rules,
        replay(empty_bitmap(num_rules), Seq::empty(), ids).0[i] <==> reported(ids, i),
    decreases ids.len(),
{
    if ids.len() > 0 {
        let prev = ids.drop_last();
        lemma_bitmap_bit_iff_reported(num_rules, prev, i);
        if reported(ids, i) {
            let k = choose|k: int| 0 <= k < ids.len() && ids[k] as int == i;
            if k < ids.len() - 1 {
                assert(prev[k] == ids[k]);
            }
        }
        if reported(prev, i) {
            let k = choose|k: int| 0 <= k < prev.len() && prev[k] as int == i;
            assert(ids[k] == prev[k]);
        }
        if ids.last() as int == i {
            assert(ids[ids.len() - 1] as int == i);
        }
    }
}

/// The mutable state of one scan: which rules matched, as a bitmap with one
/// bit per compiled rule and as a list in the order in which they first
/// matched, together with the pattern matches that conditions query.
pub struct ScanContext {
    rules_matching_bitmap: Vec<bool>,
    rules_matching: Vec<RuleId>,
    pattern_matches: PatternMatches,
}

impl ScanContext {
    /// One bit per compiled rule, set for the rules that matched.
    pub closed spec fn bitmap(&self) -> Seq<bool> {
        self.rules_matching_bitmap@
    }

    /// The rules that matched, in the order in which they first matched.
    pub closed spec fn matching(&self) -> Seq<RuleId> {
        self.rules_matching@
    }

    /// The pattern matches that this scan queries.
    pub closed spec fn patterns(&self) -> Seq<Seq<i64>> {
        self.pattern_matches@
    }

    /// The list holds each rule whose bit is set, once, and no other.
    pub closed spec fn wf(&self) -> bool {
        &&& self.pattern_matches.wf()
        &&& self.rules_matching@.no_duplicates()
        &&& forall|k: int|
            0 <= k < self.rules_matching@.len() ==> 0 <= #[trigger] self.rules_matching@[k]
                < self.rules_matching_bitmap@.len() && self.rules_matching_bitmap@[self.rules_matching@[k] as int]
        &&& forall|i: int|
            0 <= i < self.rules_matching_bitmap@.len() && #[trigger] self.rules_matching_bitmap@[i]
                ==> self.rules_matching@.contains(i as RuleId)
    }

    /// A fresh context for a scan of `num_rules` rules against the given
    /// pattern matches: no rule has matched yet.
    pub fn new(num_rules: usize, pattern_matches: PatternMatches) -> (r: ScanContext)
        requires
            pattern_matches.wf(),
        ensures
            r.wf(),
            r.bitmap() == empty_bitmap(num_rules as nat),
            r.matching() == Seq::<RuleId>::empty(),
            r.patterns() == pattern_matches@,
    {
        let mut bitmap: Vec<bool> = Vec::new();
        let mut i: usize = 0;
        while i < num_rules
            invariant
                i <= num_rules,
                bitmap@ == empty_bitmap(i as nat),
            decreases num_rules - i,
        {
            bitmap.push(false);
            i = i + 1;
            assert(bitmap@ =~= empty_bitmap(i as nat));
        }
        ScanContext { rules_matching_bitmap: bitmap, rules_matching: Vec::new(), pattern_matches }
    }

    /// Records that rule `rule_id` matched: its bit is set, and it joins the
    /// list of matching rules unless it is already there. An id outside the
    /// compiled rule set changes nothing.
    pub fn report_match(&mut self, rule_id: RuleId)
        requires
            old(self).wf(),
        ensures
            final(self).wf(),
            (final(self).bitmap(), final(self).matching()) == report_step(
                old(self).bitmap(),
                old(self).matching(),
                rule_id,
            ),
            final(self).patterns() == old(self).patterns(),
    {
        if rule_id < 0 || rule_id as usize >= self.rules_matching_bitmap.len() {
            return;
        }
        let id = rule_id as usize;
        if self.rules_matching_bitmap[id] {
            return;
        }
        let ghost old_list = self.rules_matching@;
        assert(!old_list.contains(rule_id));
        self.rules_matching_bitmap.set(id, true);
        self.rules_matching.push(rule_id);
        assert forall|i: int|
            0 <= i < self.rules_matching_bitmap@.len() && #[trigger] self.rules_matching_bitmap@[i]
                implies self.rules_matching@.contains(i as RuleId) by {
            if i == id {
                assert(self.rules_matching@[old_list.len() as int] == rule_id);
            } else {
                let k = choose|k: int| 0 <= k < old_list.len() && old_list[k] == i as RuleId;
                assert(self.rules_matching@[k] == i as RuleId);
            }
        }
    }

    /// One flag per compiled rule, set for the rules that matched.
    pub fn rules_matching_bitmap(&self) -> (r: &Vec<bool>)
        ensures
            r@ == self.bitmap(),
    {
        &self.rules_matching_bitmap
    }

    /// The rules that matched, in the order in which they first matched.
    pub fn rules_matching(&self) -> (r: &Vec<RuleId>)
        ensures
            r@ == self.matching(),
    {
        &self.rules_matching
    }

    /// The pattern matches that this scan queries.
    pub fn pattern_matches(&self) -> (r: &PatternMatches)
        requires
            self.wf(),
        ensures
            r@ == self.patterns(),
            r.wf(),
    {
        &self.pattern_matches
    }
}

/// Position of the first offset in `v` that is not below `x` (the length of
/// `v` when there is none), found by binary search.
fn lower_bound(v: &Vec<i64>, x: i64) -> (r: usize)
    requires
        strictly_sorted(v@),
    ensures
        r <= v@.len(),
        forall|i: int| 0 <= i < r ==> v@[i] < x,
        forall|i: int| r <= i < v@.len() ==> v@[i] >= x,
{
    let mut lo: usize = 0;
    let mut hi: usize = v.len();
    while lo < hi
        invariant
            lo <= hi <= v@.len(),
            strictly_sorted(v@),
            forall|i: int| 0 <= i < lo ==> v@[i] < x,
            forall|i: int| hi <= i < v@.len() ==> v@[i] >= x,
        decreases hi - lo,
    {
        let mid = lo + (hi - lo) / 2;
        if v[mid] < x {
            lo = mid + 1;
        } else {
            hi = mid;
        }
    }
    lo
}

} // verus!
