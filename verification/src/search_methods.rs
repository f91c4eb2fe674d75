//! The two ways of searching a list of Rust releases for the oldest one that can build a crate.
//!
//! The releases are ordered from the most recent (index `0`) to the least recent. Checking a
//! release means running a toolchain, which the caller does: each search is a state machine
//! that names the index to check next ([`SearchAction::Check`]), takes the outcome of that check
//! (`true` when the crate was found compatible), and finally names the index of the oldest
//! compatible release it found ([`SearchAction::Finished`]).
use vstd::prelude::*;

verus! {

/// What a search asks of its caller.
#[derive(Clone, Copy, Debug, PartialEq, Eq, Structural)]
pub enum SearchAction {
    /// Check the release at this index and report the outcome.
    Check(usize),
    /// The search is over: the index of the oldest release found compatible, if any.
    Finished(Option<usize>),
}

// ----------------------------------------------------------------------------------------------
// Bisection
// ----------------------------------------------------------------------------------------------

/// The point the bisection looks at next: the middle of the window from `left` to `right`.
pub open spec fn middle(left: int, right: int) -> int {
    left + (right - left) / 2
}

/// The bisection run from the window `[left, right]` (both ends included): each compatible
/// middle moves the window to the older half past it and is remembered, each incompatible one
/// makes it the older end of the window. The result is the point where the window closed and
/// the last compatible index seen.
pub open spec fn bisect_search(
    outcomes: Seq<bool>,
    left: int,
    right: int,
    last: Option<int>,
) -> (int, Option<int>)
    decreases right - left,
{
    if left >= right {
        (left, last)
    } else {
        let mid = middle(left, right);
        if outcomes[mid] {
            bisect_search(outcomes, mid + 1, right, Some(mid))
        } else {
            bisect_search(outcomes, left, mid, last)
        }
    }
}

/// The index that the bisection returns, given the outcome of checking each release.
///
/// The window starts as all the releases, from index `0` to index `len - 1`. The window never
/// checks its older end, so when it closes on the last release, that release is checked then and
/// decides the result itself.
pub open spec fn bisect_result(outcomes: Seq<bool>) -> Option<int> {
    let (converged, last) = bisect_search(outcomes, 0, outcomes.len() - 1, None);
    if converged == outcomes.len() - 1 {
        if outcomes[converged] {
            Some(converged)
        } else {
            last
        }
    } else {
        last
    }
}

/// Where a bisection stands.
#[derive(Clone, Copy, Debug, PartialEq, Eq, Structural)]
pub enum BisectStage {
    /// Narrowing the window.
    Searching,
    /// The window closed on the last release, which is checked last.
    Rechecking,
    /// The search is over.
    Done(Option<usize>),
}

/// Bisection over a list of `len` releases.
pub struct Bisect {
    len: usize,
    left: usize,
    right: usize,
    iteration: u64,
    last_compatible: Option<usize>,
    stage: BisectStage,
    checked: Ghost<Set<int>>,
}

/// The abstract state of a bisection.
pub struct BisectState {
    pub len: nat,
    pub left: int,
    pub right: int,
    pub iteration: nat,
    pub last_compatible: Option<int>,
    pub stage: BisectStage,
    /// The indices checked so far.
    pub checked: Set<int>,
}

pub open spec fn opt_index(o: Option<usize>) -> Option<int> {
    match o {
        Some(i) => Some(i as int),
        None => None,
    }
}

impl View for Bisect {
    type V = BisectState;

    closed spec fn view(&self) -> BisectState {
        BisectState {
            len: self.len as nat,
            left: self.left as int,
            right: self.right as int,
            iteration: self.iteration as nat,
            last_compatible: opt_index(self.last_compatible),
            stage: self.stage,
            checked: self.checked@,
        }
    }
}

/// The action a bisection in state `s` asks for.
pub open spec fn bisect_action(s: BisectState) -> SearchAction {
    match s.stage {
        BisectStage::Searching => if s.left < s.right {
            SearchAction::Check(middle(s.left, s.right) as usize)
        } else {
            SearchAction::Check((s.len - 1) as usize)
        },
        BisectStage::Rechecking => SearchAction::Check((s.len - 1) as usize),
        BisectStage::Done(r) => SearchAction::Finished(r),
    }
}

/// The state once the window is closed (`left == right`): check the last release if the window
/// closed on it, otherwise the search is over.
pub open spec fn bisect_close(s: BisectState) -> BisectState {
    if s.left == s.len - 1 {
        BisectState { stage: BisectStage::Rechecking, ..s }
    } else {
        let r = match s.last_compatible {
            Some(i) => Some(i as usize),
            None => None,
        };
        BisectState { stage: BisectStage::Done(r), ..s }
    }
}

/// The state after the check that `s` asked for came back with `compatible`.
pub open spec fn bisect_record(s: BisectState, compatible: bool) -> BisectState {
    match s.stage {
        BisectStage::Rechecking => {
            let r = if compatible {
                Some((s.len - 1) as usize)
            } else {
                match s.last_compatible {
                    Some(i) => Some(i as usize),
                    None => None,
                }
            };
            BisectState { stage: BisectStage::Done(r), checked: s.checked.insert(s.len - 1), ..s }
        },
        _ => {
            let mid = middle(s.left, s.right);
            let next = if compatible {
                BisectState {
                    left: mid + 1,
                    iteration: s.iteration + 1,
                    last_compatible: Some(mid),
                    checked: s.checked.insert(mid),
                    ..s
                }
            } else {
                BisectState {
                    right: mid,
                    iteration: s.iteration + 1,
                    checked: s.checked.insert(mid),
                    ..s
                }
            };
            if next.left == next.right {
                bisect_close(next)
            } else {
                next
            }
        },
    }
}

/// The number of binary digits of `n`: how often `n` can be halved (rounding down) before it
/// reaches `0`. For `n = len - 1` with `len >= 2` this is the base-2 logarithm of `len`, rounded
/// up.
pub open spec fn halvings(n: nat) -> nat
    decreases n,
{
    if n == 0 {
        0
    } else {
        1 + halvings(n / 2)
    }
}

proof fn lemma_halvings_monotone(a: nat, b: nat)
    requires
        a <= b,
    ensures
        halvings(a) <= halvings(b),
    decreases b,
{
    if a > 0 {
        lemma_halvings_monotone(a / 2, b / 2);
    }
}

/// Indices are within bounds and the window only shrinks.
pub open spec fn bisect_wf(s: BisectState) -> bool {
    &&& 0 < s.len <= usize::MAX
    &&& 0 <= s.left <= s.right <= s.len - 1
    &&& s.iteration + (s.right - s.left) <= s.len - 1
    &&& s.iteration + halvings((s.right - s.left) as nat) <= halvings((s.len - 1) as nat)
    &&& s.checked.finite()
    &&& s.checked.len() <= s.iteration + (if s.stage is Done {
        1int
    } else {
        0int
    })
    &&& match s.last_compatible {
        Some(i) => 0 <= i < s.len,
        None => true,
    }
    &&& forall|c: int|
        #![trigger s.checked.contains(c)]
        s.checked.contains(c) && !(s.stage is Done) ==> c < s.left || (s.right <= c && c
            != s.len - 1)
    &&& match s.stage {
        BisectStage::Searching => s.left < s.right,
        BisectStage::Rechecking => s.left == s.right && s.left == s.len - 1,
        BisectStage::Done(r) => match r {
            Some(i) => i < s.len,
            None => true,
        },
    }
}

/// `bisector`'s `Indices::middle` for the indices `left` and `right`: `left + (right - left) / 2`,
/// in integer division (it asserts `left <= right` in debug builds, so that is required).
#[verifier::external_body]
fn indices_middle(left: usize, right: usize) -> (m: usize)
    requires
        left <= right,
    ensures
        m == middle(left as int, right as int),
{
    bisector::Indices::new(left, right).middle()
}

impl Bisect {
    /// Starts a bisection over `len` releases: the window holds all of them, from index `0` to
    /// index `len - 1`. A single release is simply checked.
    pub fn new(len: usize) -> (b: Bisect)
        requires
            len > 0,
        ensures
            b@ == (BisectState {
                len: len as nat,
                left: 0,
                right: len - 1,
                iteration: 0,
                last_compatible: None,
                stage: if len == 1 {
                    BisectStage::Rechecking
                } else {
                    BisectStage::Searching
                },
                checked: Set::empty(),
            }),
            bisect_wf(b@),
            forall|outcomes: Seq<bool>|
                outcomes.len() == len ==> #[trigger] bisect_outcome_of(b@, outcomes)
                    == bisect_result(outcomes),
    {
        let stage = if len == 1 {
            BisectStage::Rechecking
        } else {
            BisectStage::Searching
        };
        let b = Bisect {
            len,
            left: 0,
            right: len - 1,
            iteration: 0,
            last_compatible: None,
            stage,
            checked: Ghost(Set::empty()),
        };
        assert forall|outcomes: Seq<bool>| outcomes.len() == len implies #[trigger] bisect_outcome_of(
            b@,
            outcomes,
        ) == bisect_result(outcomes) by {
            if len == 1 {
                assert(bisect_search(outcomes, 0, 0, None) == (0int, None::<int>));
            }
        }
        b
    }

    /// The next thing the bisection asks for.
    pub fn next_action(&self) -> (a: SearchAction)
        requires
            bisect_wf(self@),
        ensures
            a == bisect_action(self@),
            match a {
                SearchAction::Check(i) => i < self@.len,
                SearchAction::Finished(Some(i)) => i < self@.len,
                _ => true,
            },
    {
        match self.stage {
            BisectStage::Searching => SearchAction::Check(indices_middle(self.left, self.right)),
            BisectStage::Rechecking => SearchAction::Check(self.len - 1),
            BisectStage::Done(r) => SearchAction::Finished(r),
        }
    }

    /// Records the outcome of the check that [`Bisect::next_action`] asked for.
    pub fn record(&mut self, compatible: bool)
        requires
            bisect_wf(old(self)@),
            !(old(self)@.stage is Done),
        ensures
            final(self)@ == bisect_record(old(self)@, compatible),
            bisect_wf(final(self)@),
    {
        match self.stage {
            BisectStage::Rechecking => {
                let r = if compatible {
                    Some(self.len - 1)
                } else {
                    self.last_compatible
                };
                proof {
                    if self.checked@.contains(self.len - 1) {
                        assert(self.len - 1 < self.left || (self.right <= self.len - 1 && self.len
                            - 1 != self.len - 1));
                    }
                }
                self.stage = BisectStage::Done(r);
                self.checked = Ghost(self.checked@.insert(self.len - 1));
            },
            _ => {
                let mid = indices_middle(self.left, self.right);
                proof {
                    let w = (self.right - self.left) as nat;
                    lemma_halvings_monotone((mid - self.left) as nat, w / 2);
                    lemma_halvings_monotone((self.right - mid - 1) as nat, w / 2);
                }
                self.checked = Ghost(self.checked@.insert(mid as int));
                if compatible {
                    self.left = mid + 1;
                    self.last_compatible = Some(mid);
                } else {
                    self.right = mid;
                }
                self.iteration = self.iteration + 1;
                if self.left == self.right {
                    if self.left == self.len - 1 {
                        self.stage = BisectStage::Rechecking;
                    } else {
                        self.stage = BisectStage::Done(self.last_compatible);
                    }
                }
            },
        }
    }

    /// The number of steps the progress bar shows: the checks done plus the distance between
    /// the two ends of the window.
    pub fn steps(&self) -> (n: u64)
        requires
            bisect_wf(self@),
        ensures
            n == self@.iteration + (self@.right - self@.left),
    {
        assert(self.iteration + (self.right - self.left) <= self.len);
        self.iteration + (self.right - self.left) as u64
    }
}

/// The result a bisection in state `s` ends with, given the outcome of each check.
pub open spec fn bisect_outcome_of(s: BisectState, outcomes: Seq<bool>) -> Option<int> {
    match s.stage {
        BisectStage::Searching => {
            let (converged, last) = bisect_search(outcomes, s.left, s.right, s.last_compatible);
            if converged == s.len - 1 {
                if outcomes[converged] {
                    Some(converged)
                } else {
                    last
                }
            } else {
                last
            }
        },
        BisectStage::Rechecking => if outcomes[s.len - 1] {
            Some(s.len - 1)
        } else {
            s.last_compatible
        },
        BisectStage::Done(r) => opt_index(r),
    }
}

pub open spec fn bisect_measure(s: BisectState) -> int {
    match s.stage {
        BisectStage::Searching => s.right - s.left + 2,
        BisectStage::Rechecking => 1,
        BisectStage::Done(_) => 0,
    }
}

pub(crate) proof fn lemma_bisect_record_keeps_outcome(s: BisectState, outcomes: Seq<bool>)
    requires
        bisect_wf(s),
        !(s.stage is Done),
        outcomes.len() == s.len,
    ensures
        ({
            let i = match bisect_action(s) {
                SearchAction::Check(i) => i as int,
                _ => 0,
            };
            &&& bisect_action(s) is Check
            &&& 0 <= i < s.len
            &&& bisect_outcome_of(bisect_record(s, outcomes[i]), outcomes) == bisect_outcome_of(
                s,
                outcomes,
            )
            &&& bisect_measure(bisect_record(s, outcomes[i])) < bisect_measure(s)
        }),
{
    match s.stage {
        BisectStage::Rechecking => {},
        _ => {
            let mid = middle(s.left, s.right);
            assert(s.left <= mid < s.right);
            assert((mid as usize) as int == mid);
            let next = bisect_record(s, outcomes[mid]);
            match s.last_compatible {
                Some(i) => {
                    assert((i as usize) as int == i);
                },
                None => {},
            }
            assert(bisect_search(outcomes, s.left, s.right, s.last_compatible) == if outcomes[mid] {
                bisect_search(outcomes, mid + 1, s.right, Some(mid))
            } else {
                bisect_search(outcomes, s.left, mid, s.last_compatible)
            });
        },
    }
}

/// Runs a bisection where the check of release `i` comes back with `outcomes[i]`.
pub fn bisect_with_outcomes(outcomes: &Vec<bool>) -> (r: Option<usize>)
    requires
        outcomes.len() > 0,
    ensures
        opt_index(r) == bisect_result(outcomes@),
{
    let mut b = Bisect::new(outcomes.len());
    loop
        invariant
            bisect_wf(b@),
            b@.len == outcomes@.len(),
            bisect_outcome_of(b@, outcomes@) == bisect_result(outcomes@),
        decreases bisect_measure(b@),
    {
        let action = b.next_action();
        match action {
            SearchAction::Check(i) => {
                proof {
                    lemma_bisect_record_keeps_outcome(b@, outcomes@);
                }
                b.record(outcomes[i]);
            },
            SearchAction::Finished(r) => {
                return r;
            },
        }
    }
}

/// A bisection over `len` releases checks at most `halvings(len - 1) + 1` of them (the base-2
/// logarithm of `len`, rounded up, plus one): each check while the window narrows at least
/// halves it, and the last release may be checked once more when the window closes on it.
pub proof fn lemma_bisect_check_count(s: BisectState)
    requires
        bisect_wf(s),
    ensures
        s.checked.len() <= halvings((s.len - 1) as nat) + 1,
{
}

/// A bisection never checks a release twice: the release it asks for next is one it has not
/// checked yet, and recording the outcome marks it checked. In particular the last release,
/// checked when the window closes on it, was never checked while the window narrowed.
pub proof fn lemma_bisect_checks_each_release_once(s: BisectState, compatible: bool)
    requires
        bisect_wf(s),
        bisect_action(s) is Check,
    ensures
        ({
            let i = match bisect_action(s) {
                SearchAction::Check(i) => i as int,
                _ => 0,
            };
            &&& !s.checked.contains(i)
            &&& bisect_record(s, compatible).checked == s.checked.insert(i)
        }),
{
    match s.stage {
        BisectStage::Searching => {
            let mid = middle(s.left, s.right);
            assert(s.left <= mid < s.right);
            assert((mid as usize) as int == mid);
            if s.checked.contains(mid) {
                assert(mid < s.left || (s.right <= mid && mid != s.len - 1));
            }
        },
        BisectStage::Rechecking => {
            assert(((s.len - 1) as usize) as int == s.len - 1);
            if s.checked.contains(s.len - 1) {
                assert(s.len - 1 < s.left || (s.right <= s.len - 1 && s.len - 1 != s.len - 1));
            }
        },
        BisectStage::Done(_) => {},
    }
}

// ----------------------------------------------------------------------------------------------
// Linear search
// ----------------------------------------------------------------------------------------------

/// The linear search from index `i`: check releases from the most recent down, remembering each
/// compatible one, and stop at the first incompatible one.
pub open spec fn linear_search(outcomes: Seq<bool>, i: int, last: Option<int>) -> Option<int>
    decreases outcomes.len() - i,
{
    if i < 0 || i >= outcomes.len() {
        last
    } else if !outcomes[i] {
        last
    } else {
        linear_search(outcomes, i + 1, Some(i))
    }
}

/// The index the linear search returns, given the outcome of checking each release.
pub open spec fn linear_result(outcomes: Seq<bool>) -> Option<int> {
    linear_search(outcomes, 0, None)
}

/// Linear search over a list of `len` releases.
pub struct Linear {
    len: usize,
    index: usize,
    last_compatible: Option<usize>,
    stopped: bool,
}

/// The abstract state of a linear search.
pub struct LinearState {
    pub len: nat,
    pub index: int,
    pub last_compatible: Option<int>,
    pub stopped: bool,
}

impl View for Linear {
    type V = LinearState;

    closed spec fn view(&self) -> LinearState {
        LinearState {
            len: self.len as nat,
            index: self.index as int,
            last_compatible: opt_index(self.last_compatible),
            stopped: self.stopped,
        }
    }
}

pub open spec fn linear_wf(s: LinearState) -> bool {
    &&& s.len <= usize::MAX
    &&& 0 <= s.index <= s.len
    &&& s.last_compatible == (if s.index > 0 {
        Some(s.index - 1)
    } else {
        None::<int>
    })
}

/// The action a linear search in state `s` asks for.
pub open spec fn linear_action(s: LinearState) -> SearchAction {
    if s.stopped || s.index >= s.len {
        SearchAction::Finished(
            match s.last_compatible {
                Some(i) => Some(i as usize),
                None => None,
            },
        )
    } else {
        SearchAction::Check(s.index as usize)
    }
}

/// The state after the check of release `s.index` came back with `compatible`.
pub open spec fn linear_record(s: LinearState, compatible: bool) -> LinearState {
    if compatible {
        LinearState { index: s.index + 1, last_compatible: Some(s.index), ..s }
    } else {
        LinearState { stopped: true, ..s }
    }
}

impl Linear {
    /// Starts a linear search over `len` releases, from the most recent one.
    pub fn new(len: usize) -> (l: Linear)
        ensures
            l@ == (LinearState { len: len as nat, index: 0, last_compatible: None, stopped: false }),
            linear_wf(l@),
    {
        Linear { len, index: 0, last_compatible: None, stopped: false }
    }

    /// The next thing the linear search asks for.
    pub fn next_action(&self) -> (a: SearchAction)
        requires
            linear_wf(self@),
        ensures
            a == linear_action(self@),
            match a {
                SearchAction::Check(i) => i < self@.len,
                SearchAction::Finished(Some(i)) => i < self@.len,
                _ => true,
            },
    {
        if self.stopped || self.index >= self.len {
            SearchAction::Finished(self.last_compatible)
        } else {
            SearchAction::Check(self.index)
        }
    }

    /// Records the outcome of the check that [`Linear::next_action`] asked for.
    pub fn record(&mut self, compatible: bool)
        requires
            linear_wf(old(self)@),
            linear_action(old(self)@) is Check,
        ensures
            final(self)@ == linear_record(old(self)@, compatible),
            linear_wf(final(self)@),
    {
        if compatible {
            self.last_compatible = Some(self.index);
            self.index = self.index + 1;
        } else {
            self.stopped = true;
        }
    }
}

/// Runs a linear search where the check of release `i` comes back with `outcomes[i]`.
pub fn linear_with_outcomes(outcomes: &Vec<bool>) -> (r: Option<usize>)
    ensures
        opt_index(r) == linear_result(outcomes@),
{
    let mut l = Linear::new(outcomes.len());
    loop
        invariant
            linear_wf(l@),
            l@.len == outcomes@.len(),
            (if l@.stopped {
                l@.last_compatible
            } else {
                linear_search(outcomes@, l@.index, l@.last_compatible)
            }) == linear_result(outcomes@),
        decreases l@.len - l@.index + (if l@.stopped {
            0int
        } else {
            1int
        }),
    {
        match l.next_action() {
            SearchAction::Check(i) => {
                l.record(outcomes[i]);
            },
            SearchAction::Finished(r) => {
                return r;
            },
        }
    }
}

// ----------------------------------------------------------------------------------------------
// What the searches find
// ----------------------------------------------------------------------------------------------

/// Compatibility is monotone with boundary `k`: exactly the `k` most recent releases are
/// compatible (newer toolchains keep building what older ones built).
pub open spec fn compatible_up_to(outcomes: Seq<bool>, k: int) -> bool {
    &&& 0 <= k <= outcomes.len()
    &&& forall|i: int| 0 <= i < outcomes.len() ==> (outcomes[i] <==> i < k)
}

/// The index of the oldest compatible release when the `k` most recent are compatible.
pub open spec fn oldest_compatible(k: int) -> Option<int> {
    if k == 0 {
        None
    } else {
        Some(k - 1)
    }
}

/// Where a bisection closes when the `k` most recent releases are compatible: on the oldest
/// incompatible one, or on the last release when all are compatible.
pub open spec fn closing_point(len: int, k: int) -> int {
    if k < len {
        k
    } else {
        len - 1
    }
}

proof fn lemma_bisect_search_monotone(
    outcomes: Seq<bool>,
    k: int,
    left: int,
    right: int,
    last: Option<int>,
)
    requires
        compatible_up_to(outcomes, k),
        0 <= left <= right <= outcomes.len() - 1,
        left <= k,
        k <= right || (k == outcomes.len() && right == outcomes.len() - 1),
        last == (if left > 0 {
            Some(left - 1)
        } else {
            None::<int>
        }),
    ensures
        bisect_search(outcomes, left, right, last) == (
            closing_point(outcomes.len() as int, k),
            oldest_compatible(closing_point(outcomes.len() as int, k)),
        ),
    decreases right - left,
{
    if left < right {
        let mid = middle(left, right);
        if outcomes[mid] {
            lemma_bisect_search_monotone(outcomes, k, mid + 1, right, Some(mid));
        } else {
            lemma_bisect_search_monotone(outcomes, k, left, mid, last);
        }
    }
}

/// Bisection finds the MSRV: when exactly the `k` most recent releases are compatible, the
/// bisection returns the oldest of them (`k - 1`), or nothing when none is compatible.
pub proof fn lemma_bisect_finds_oldest_compatible(outcomes: Seq<bool>, k: int)
    requires
        outcomes.len() > 0,
        compatible_up_to(outcomes, k),
    ensures
        bisect_result(outcomes) == oldest_compatible(k),
{
    lemma_bisect_search_monotone(outcomes, k, 0, outcomes.len() - 1, None);
}

proof fn lemma_linear_search_monotone(outcomes: Seq<bool>, k: int, i: int, last: Option<int>)
    requires
        compatible_up_to(outcomes, k),
        0 <= i <= k,
        last == (if i > 0 {
            Some(i - 1)
        } else {
            None::<int>
        }),
    ensures
        linear_search(outcomes, i, last) == oldest_compatible(k),
    decreases outcomes.len() - i,
{
    if i < outcomes.len() && outcomes[i] {
        lemma_linear_search_monotone(outcomes, k, i + 1, Some(i));
    }
}

/// Linear search finds the MSRV: when exactly the `k` most recent releases are compatible, it
/// returns the oldest of them (`k - 1`), or nothing when none is compatible.
pub proof fn lemma_linear_finds_oldest_compatible(outcomes: Seq<bool>, k: int)
    requires
        compatible_up_to(outcomes, k),
    ensures
        linear_result(outcomes) == oldest_compatible(k),
{
    lemma_linear_search_monotone(outcomes, k, 0, None);
}

/// Both search methods agree when compatibility is monotone.
pub proof fn lemma_bisect_agrees_with_linear(outcomes: Seq<bool>, k: int)
    requires
        outcomes.len() > 0,
        compatible_up_to(outcomes, k),
    ensures
        bisect_result(outcomes) == linear_result(outcomes),
{
    lemma_bisect_finds_oldest_compatible(outcomes, k);
    lemma_linear_finds_oldest_compatible(outcomes, k);
}

proof fn lemma_bisect_search_sound(outcomes: Seq<bool>, left: int, right: int, last: Option<int>)
    requires
        0 <= left <= right <= outcomes.len(),
    ensures
        ({
            let (c, l) = bisect_search(outcomes, left, right, last);
            &&& left <= c <= right
            &&& (l == last || (l matches Some(j) && left <= j < right && outcomes[j]))
        }),
    decreases right - left,
{
    if left < right {
        let mid = middle(left, right);
        if outcomes[mid] {
            lemma_bisect_search_sound(outcomes, mid + 1, right, Some(mid));
        } else {
            lemma_bisect_search_sound(outcomes, left, mid, last);
        }
    }
}

/// Whatever the outcomes, the release a bisection returns is one whose check passed.
pub proof fn lemma_bisect_result_passed(outcomes: Seq<bool>)
    requires
        outcomes.len() > 0,
    ensures
        bisect_result(outcomes) matches Some(i) ==> 0 <= i < outcomes.len() && outcomes[i],
{
    lemma_bisect_search_sound(outcomes, 0, outcomes.len() - 1, None);
}

proof fn lemma_linear_search_shape(outcomes: Seq<bool>, i: int, last: Option<int>)
    requires
        0 <= i <= outcomes.len(),
        last == (if i > 0 {
            Some(i - 1)
        } else {
            None::<int>
        }),
        forall|j: int| 0 <= j < i ==> outcomes[j],
    ensures
        match linear_search(outcomes, i, last) {
            Some(r) => 0 <= r < outcomes.len() && (forall|j: int| 0 <= j <= r ==> outcomes[j])
                && (r + 1 < outcomes.len() ==> !outcomes[r + 1]),
            None => outcomes.len() == 0 || !outcomes[0],
        },
    decreases outcomes.len() - i,
{
    if i < outcomes.len() && outcomes[i] {
        lemma_linear_search_shape(outcomes, i + 1, Some(i));
    }
}

/// Whatever the outcomes, linear search returns the release just before the first failing
/// check (or the last release when none fails): all releases up to it passed, the next one
/// failed, and it returns nothing only when the most recent release failed.
pub proof fn lemma_linear_result_is_last_before_failure(outcomes: Seq<bool>)
    ensures
        match linear_result(outcomes) {
            Some(r) => 0 <= r < outcomes.len() && (forall|j: int| 0 <= j <= r ==> outcomes[j])
                && (r + 1 < outcomes.len() ==> !outcomes[r + 1]),
            None => outcomes.len() == 0 || !outcomes[0],
        },
{
    lemma_linear_search_shape(outcomes, 0, None);
}

} // verus!
