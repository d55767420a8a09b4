use vstd::prelude::*;

verus! {

/// Whether a pattern holds a wildcard (`*` or `?`) and is expanded against
/// the file system rather than taken as one path.
pub open spec fn is_wildcard(p: Seq<char>) -> bool {
    p.contains('*') || p.contains('?')
}

/// Whether `pattern` is to be expanded as a glob.
pub fn is_glob_pattern(pattern: &str) -> (r: bool)
    ensures
        r == is_wildcard(pattern@),
{
    let n = pattern.unicode_len();
    let mut i: usize = 0;
    while i < n
        invariant
            n == pattern@.len(),
            i <= n,
            forall|j: int| 0 <= j < i ==> pattern@[j] != '*' && pattern@[j] != '?',
        decreases n - i,
    {
        let c = pattern.get_char(i);
        if c == '*' || c == '?' {
            return true;
        }
        i = i + 1;
    }
    false
}

/// The exit status of a batch with `failed` failures.
pub open spec fn exit_code_for(failed: nat) -> int {
    if failed > 0 {
        1
    } else {
        0
    }
}

/// What the driver asks for next.
pub enum Action {
    /// Expand this wildcard pattern against the file system.
    Expand(String),
    /// Convert the file at this path.
    Convert(String),
    /// Everything is done; exit with this status.
    Finish(i32),
}

/// The meaning of an `Action`.
pub enum Step {
    Expand(Seq<char>),
    Convert(Seq<char>),
    Finish(int),
}

impl View for Action {
    type V = Step;

    open spec fn view(&self) -> Step {
        match self {
            Action::Expand(p) => Step::Expand(p@),
            Action::Convert(p) => Step::Convert(p@),
            Action::Finish(c) => Step::Finish(*c as int),
        }
    }
}

/// The state of a batch: the patterns not yet taken up, the paths of the
/// current expansion not yet converted, and the two counters.
pub struct RunState {
    pub patterns: Seq<Seq<char>>,
    pub paths: Seq<Seq<char>>,
    pub converted: nat,
    pub failed: nat,
}

/// The texts of a list of strings.
pub open spec fn texts(v: Seq<String>) -> Seq<Seq<char>> {
    v.map_values(|s: String| s@)
}

/// What comes next: the next path of the current expansion; else the next
/// pattern, expanded if it is a wildcard and converted as a path if not;
/// else the end, with a non-zero status exactly when something failed.
pub open spec fn next_step(v: RunState) -> Step {
    if v.paths.len() > 0 {
        Step::Convert(v.paths[0])
    } else if v.patterns.len() > 0 {
        if is_wildcard(v.patterns[0]) {
            Step::Expand(v.patterns[0])
        } else {
            Step::Convert(v.patterns[0])
        }
    } else {
        Step::Finish(exit_code_for(v.failed))
    }
}

/// The state after the pending pattern was expanded into `found`, or turned
/// out to be invalid (`None`), which counts as one failure.
pub open spec fn after_expansion(v: RunState, found: Option<Seq<Seq<char>>>) -> RunState {
    match found {
        Some(ps) => RunState { patterns: v.patterns.drop_first(), paths: ps, ..v },
        None => RunState { patterns: v.patterns.drop_first(), failed: v.failed + 1, ..v },
    }
}

/// The state after the pending conversion succeeded (`ok`) or failed.
pub open spec fn after_conversion(v: RunState, ok: bool) -> RunState {
    let rest = if v.paths.len() > 0 {
        RunState { paths: v.paths.drop_first(), ..v }
    } else {
        RunState { patterns: v.patterns.drop_first(), ..v }
    };
    if ok {
        RunState { converted: v.converted + 1, ..rest }
    } else {
        RunState { failed: v.failed + 1, ..rest }
    }
}

/// Both counters can still be incremented.
pub open spec fn has_room(v: RunState) -> bool {
    v.converted < u64::MAX && v.failed < u64::MAX
}

/// The outcome of a conversion changes only the counters: the patterns and
/// paths that remain are the same whether it succeeded or failed.
pub proof fn lemma_outcome_leaves_work_unchanged(v: RunState)
    requires
        next_step(v) is Convert,
    ensures
        after_conversion(v, true).patterns == after_conversion(v, false).patterns,
        after_conversion(v, true).paths == after_conversion(v, false).paths,
{
}

/// Converting one path of an expansion, whether it fails or not, is followed
/// by converting the next path of the same expansion.
pub proof fn lemma_next_path_follows_any_outcome(v: RunState, ok: bool)
    requires
        v.paths.len() >= 2,
    ensures
        next_step(after_conversion(v, ok)) == Step::Convert(v.paths[1]),
{
}

/// A failure, once counted, stays counted: no step lowers the failure count,
/// and a failed conversion or an invalid pattern raises it.
pub proof fn lemma_failures_are_kept(v: RunState, ok: bool, found: Option<Seq<Seq<char>>>)
    ensures
        after_conversion(v, ok).failed >= v.failed,
        after_conversion(v, false).failed > 0,
        after_expansion(v, found).failed >= v.failed,
        after_expansion(v, None).failed > 0,
{
}

/// When no work remains the batch finishes, with a non-zero status exactly
/// when something failed.
pub proof fn lemma_exit_status(v: RunState)
    requires
        v.patterns.len() == 0,
        v.paths.len() == 0,
    ensures
        next_step(v) matches Step::Finish(c) && (c != 0 <==> v.failed > 0),
{
}

/// The decisions of a batch conversion. The caller performs each action that
/// `next_action` names and reports its outcome through `expanded` or
/// `converted`.
pub struct Driver {
    patterns: Vec<String>,
    next_pattern: usize,
    paths: Vec<String>,
    next_path: usize,
    converted: u64,
    failed: u64,
}

impl View for Driver {
    type V = RunState;

    closed spec fn view(&self) -> RunState {
        RunState {
            patterns: texts(self.patterns@.skip(self.next_pattern as int)),
            paths: texts(self.paths@.skip(self.next_path as int)),
            converted: self.converted as nat,
            failed: self.failed as nat,
        }
    }
}

impl Driver {
    /// The driver's own consistency.
    pub closed spec fn wf(&self) -> bool {
        &&& self.next_pattern <= self.patterns@.len() <= usize::MAX
        &&& self.next_path <= self.paths@.len()
    }

    /// A driver for `patterns`, in the order given, with nothing done yet.
    pub fn new(patterns: Vec<String>) -> (r: Driver)
        ensures
            r.wf(),
            r@ == (RunState {
                patterns: texts(patterns@),
                paths: Seq::empty(),
                converted: 0,
                failed: 0,
            }),
    {
        let count = patterns.len();
        let r = Driver {
            patterns,
            next_pattern: 0,
            paths: Vec::new(),
            next_path: 0,
            converted: 0,
            failed: 0,
        };
        assert(r.patterns@.len() == count);
        assert(r.patterns@.skip(0) =~= r.patterns@);
        assert(texts(r.paths@.skip(0)) =~= Seq::empty());
        r
    }

    /// What to do next (see `next_step`).
    pub fn next_action(&self) -> (r: Action)
        requires
            self.wf(),
        ensures
            r@ == next_step(self@),
    {
        if self.next_path < self.paths.len() {
            Action::Convert(self.paths[self.next_path].clone())
        } else if self.next_pattern < self.patterns.len() {
            let p = self.patterns[self.next_pattern].clone();
            if is_glob_pattern(p.as_str()) {
                Action::Expand(p)
            } else {
                Action::Convert(p)
            }
        } else {
            if self.failed > 0 {
                Action::Finish(1)
            } else {
                Action::Finish(0)
            }
        }
    }

    /// Reports the expansion of the pending wildcard pattern: the paths it
    /// matched, or `None` where the pattern was invalid.
    pub fn expanded(&mut self, found: Option<Vec<String>>)
        requires
            old(self).wf(),
            next_step(old(self)@) is Expand,
            has_room(old(self)@),
        ensures
            final(self).wf(),
            final(self)@ == after_expansion(
                old(self)@,
                match found {
                    Some(v) => Some(texts(v@)),
                    None => None,
                },
            ),
    {
        let ghost before = self@;
        assert(before.patterns.len() == self.patterns@.len() - self.next_pattern);
        assert(before.paths.len() == self.paths@.len() - self.next_path);
        self.next_pattern = self.next_pattern + 1;
        match found {
            Some(v) => {
                self.paths = v;
                self.next_path = 0;
                assert(self.paths@.skip(0) =~= self.paths@);
            },
            None => {
                self.failed = self.failed + 1;
            },
        }
        assert(self@.patterns =~= before.patterns.drop_first());
    }

    /// Reports whether the pending conversion succeeded.
    pub fn converted(&mut self, ok: bool)
        requires
            old(self).wf(),
            next_step(old(self)@) is Convert,
            has_room(old(self)@),
        ensures
            final(self).wf(),
            final(self)@ == after_conversion(old(self)@, ok),
    {
        let ghost before = self@;
        assert(before.patterns.len() == self.patterns@.len() - self.next_pattern);
        assert(before.paths.len() == self.paths@.len() - self.next_path);
        if self.next_path < self.paths.len() {
            self.next_path = self.next_path + 1;
            assert(self@.paths =~= before.paths.drop_first());
        } else {
                self.next_pattern = self.next_pattern + 1;
            assert(self@.patterns =~= before.patterns.drop_first());
        }
        if ok {
            self.converted = self.converted + 1;
        } else {
            self.failed = self.failed + 1;
        }
    }

    /// The number of files converted so far.
    pub fn converted_count(&self) -> (r: u64)
        ensures
            r == self@.converted,
    {
        self.converted
    }

    /// The number of failures so far: files and invalid patterns.
    pub fn failed_count(&self) -> (r: u64)
        ensures
            r == self@.failed,
    {
        self.failed
    }

    /// Whether another outcome can still be counted.
    pub fn has_room(&self) -> (r: bool)
        ensures
            r == has_room(self@),
    {
        self.converted < u64::MAX && self.failed < u64::MAX
    }
}

} // verus!
