//! The bookkeeping of the fine-grained dependency walk: the scope stack
//! that names the current target, the dependency map it fills, and the
//! rules that decide which triggers are recorded.
//!
//! The walk itself reads live mypy AST and type objects; it hands this
//! module plain names (module, class and function full names, trigger
//! strings) and lets it decide what is recorded under which target.

use vstd::prelude::*;
use vstd::string::{StrSliceExecFns, StringExecFns, StringSliceAdditionalSpecFns};
use vstd::utf8::{decode_utf8, encode_utf8, is_char_boundary};

verus! {

/// The walk cannot decide this node; Python reruns the whole walk.
#[derive(Debug, Clone, Copy, PartialEq, Eq, Structural)]
pub struct DeferError;

// ---------------------------------------------------------------------------
// Strings
// ---------------------------------------------------------------------------

/// Whether `s` starts with `p`.
pub open spec fn has_prefix(s: Seq<char>, p: Seq<char>) -> bool {
    p.len() <= s.len() && s.subrange(0, p.len() as int) == p
}

/// Whether `s` starts with `p`, character by character.
pub fn str_starts_with(s: &str, p: &str) -> (r: bool)
    ensures
        r == has_prefix(s@, p@),
{
    let n = p.unicode_len();
    let m = s.unicode_len();
    if n > m {
        return false;
    }
    let mut i: usize = 0;
    while i < n
        invariant
            n == p@.len(),
            n <= m == s@.len(),
            i <= n,
            forall|j: int| 0 <= j < i ==> s@[j] == p@[j],
        decreases n - i,
    {
        if s.get_char(i) != p.get_char(i) {
            assert(s@.subrange(0, n as int)[i as int] != p@[i as int]);
            return false;
        }
        i = i + 1;
    }
    assert(s@.subrange(0, n as int) =~= p@);
    true
}

// ---------------------------------------------------------------------------
// Which triggers are recorded
// ---------------------------------------------------------------------------

/// Triggers of the standard library and the typing modules are never
/// recorded: those modules do not change during a fine-grained run.
pub open spec fn ignored_trigger(trigger: Seq<char>) -> bool {
    ||| has_prefix(trigger, "<builtins."@)
    ||| has_prefix(trigger, "<typing."@)
    ||| has_prefix(trigger, "<mypy_extensions."@)
    ||| has_prefix(trigger, "<typing_extensions."@)
}

/// Whether a trigger is one that is never recorded.
pub fn is_ignored_trigger(trigger: &str) -> (r: bool)
    ensures
        r == ignored_trigger(trigger@),
{
    str_starts_with(trigger, "<builtins.") || str_starts_with(trigger, "<typing.")
        || str_starts_with(trigger, "<mypy_extensions.") || str_starts_with(
        trigger,
        "<typing_extensions.",
    )
}

// ---------------------------------------------------------------------------
// The scope stack
// ---------------------------------------------------------------------------

/// A function the walk is inside: its full name (`None` when mypy has not
/// set one) and its short name.
pub struct FunctionScope {
    pub fullname: Option<String>,
    pub name: String,
}

pub struct FunctionScopeView {
    pub fullname: Option<Seq<char>>,
    pub name: Seq<char>,
}

/// The view of an optional string.
pub open spec fn opt_view(s: Option<String>) -> Option<Seq<char>> {
    match s {
        Some(t) => Some(t@),
        None => None,
    }
}

impl View for FunctionScope {
    type V = FunctionScopeView;

    open spec fn view(&self) -> FunctionScopeView {
        FunctionScopeView { fullname: opt_view(self.fullname), name: self.name@ }
    }
}

impl FunctionScope {
    /// A copy of this function scope.
    pub fn duplicate(&self) -> (r: Self)
        ensures
            r@ == self@,
    {
        let fullname = match &self.fullname {
            Some(f) => Some(f.clone()),
            None => None,
        };
        FunctionScope { fullname, name: self.name.clone() }
    }
}

/// Where the walk is: the module, the enclosing classes (by full name),
/// the outermost enclosing function, every function entered, and how many
/// nested classes and functions inside that function were entered and not
/// yet left.
pub struct Scope {
    pub module: Option<String>,
    pub classes: Vec<String>,
    pub function: Option<FunctionScope>,
    pub functions: Vec<FunctionScope>,
    pub ignored: usize,
}

pub struct ScopeView {
    pub module: Option<Seq<char>>,
    pub classes: Seq<Seq<char>>,
    pub function: Option<FunctionScopeView>,
    pub functions: Seq<FunctionScopeView>,
    pub ignored: nat,
}

impl View for Scope {
    type V = ScopeView;

    open spec fn view(&self) -> ScopeView {
        ScopeView {
            module: opt_view(self.module),
            classes: self.classes@.map_values(|c: String| c@),
            function: match self.function {
                Some(f) => Some(f@),
                None => None,
            },
            functions: self.functions@.map_values(|f: FunctionScope| f@),
            ignored: self.ignored as nat,
        }
    }
}

/// Scopes are nested only inside a function: a nested scope is counted in
/// `ignored` only while a function is entered.
pub open spec fn scope_wf(s: ScopeView) -> bool {
    s.ignored > 0 ==> s.function is Some
}

pub open spec fn spec_enter_module(fullname: Seq<char>) -> ScopeView {
    ScopeView {
        module: Some(fullname),
        classes: seq![],
        function: None,
        functions: seq![],
        ignored: 0,
    }
}

pub open spec fn spec_enter_function(s: ScopeView, f: FunctionScopeView) -> ScopeView {
    if s.function is None {
        ScopeView { function: Some(f), functions: s.functions.push(f), ..s }
    } else {
        ScopeView { functions: s.functions.push(f), ignored: s.ignored + 1, ..s }
    }
}

pub open spec fn spec_leave_function(s: ScopeView) -> ScopeView {
    let functions = if s.functions.len() == 0 {
        s.functions
    } else {
        s.functions.drop_last()
    };
    if s.ignored > 0 {
        ScopeView { functions, ignored: (s.ignored - 1) as nat, ..s }
    } else {
        ScopeView { functions, function: None, ..s }
    }
}

pub open spec fn spec_enter_class(s: ScopeView, class_fullname: Seq<char>) -> ScopeView {
    if s.function is None {
        ScopeView { classes: s.classes.push(class_fullname), ..s }
    } else {
        ScopeView { ignored: s.ignored + 1, ..s }
    }
}

pub open spec fn spec_leave_class(s: ScopeView) -> ScopeView {
    if s.ignored > 0 {
        ScopeView { ignored: (s.ignored - 1) as nat, ..s }
    } else if s.classes.len() == 0 {
        s
    } else {
        ScopeView { classes: s.classes.drop_last(), ..s }
    }
}

/// The target that dependencies are recorded under: the outermost function
/// (its full name, empty when it has none) or else the module. `None`
/// outside a module.
pub open spec fn spec_current_target(s: ScopeView) -> Option<Seq<char>> {
    match s.module {
        None => None,
        Some(m) => match s.function {
            Some(f) => match f.fullname {
                Some(n) => Some(n),
                None => Some(seq![]),
            },
            None => Some(m),
        },
    }
}

/// The full name of the innermost target: the outermost function (`None`
/// when it has no full name), else the innermost class, else the module.
/// `None` outside a module.
pub open spec fn spec_current_full_target(s: ScopeView) -> Option<Seq<char>> {
    match s.module {
        None => None,
        Some(m) => match s.function {
            Some(f) => match f.fullname {
                Some(n) => Some(n),
                None => Some("None"@),
            },
            None => if s.classes.len() > 0 {
                Some(s.classes.last())
            } else {
                Some(m)
            },
        },
    }
}

impl Scope {
    /// The scope outside any module.
    pub fn new() -> (r: Self)
        ensures
            r@.module is None,
            r@.classes.len() == 0,
            r@.function is None,
            r@.functions.len() == 0,
            r@.ignored == 0,
    {
        Scope {
            module: None,
            classes: Vec::new(),
            function: None,
            functions: Vec::new(),
            ignored: 0,
        }
    }

    /// Start a module: every class and function scope is dropped.
    pub fn enter_module(&mut self, fullname: String)
        ensures
            final(self)@ == spec_enter_module(fullname@),
    {
        self.module = Some(fullname);
        self.classes = Vec::new();
        self.function = None;
        self.functions = Vec::new();
        self.ignored = 0;
        assert(self@.classes =~= seq![]);
        assert(self@.functions =~= seq![]);
    }

    /// Leave the module.
    pub fn leave_module(&mut self)
        ensures
            final(self)@ == (ScopeView { module: None, ..old(self)@ }),
    {
        self.module = None;
    }

    /// Enter a function.
    pub fn enter_function_scope(&mut self, f: FunctionScope)
        requires
            old(self).ignored < usize::MAX,
        ensures
            final(self)@ == spec_enter_function(old(self)@, f@),
    {
        let ghost fv = f@;
        let ghost before = self@;
        if self.function.is_none() {
            let copy = f.duplicate();
            self.functions.push(copy);
            self.function = Some(f);
        } else {
            self.functions.push(f);
            self.ignored = self.ignored + 1;
        }
        assert(self@.functions =~= before.functions.push(fv));
    }

    /// Leave the innermost function.
    pub fn leave_function_scope(&mut self)
        ensures
            final(self)@ == spec_leave_function(old(self)@),
    {
        let ghost before = self@;
        let _ = self.functions.pop();
        proof {
            if before.functions.len() > 0 {
                assert(self@.functions =~= before.functions.drop_last());
            }
        }
        if self.ignored > 0 {
            self.ignored = self.ignored - 1;
        } else {
            self.function = None;
        }
    }

    /// Enter a class, given the full name of its `TypeInfo`.
    pub fn enter_class_scope(&mut self, class_fullname: String)
        requires
            old(self).ignored < usize::MAX,
        ensures
            final(self)@ == spec_enter_class(old(self)@, class_fullname@),
    {
        let ghost before = self@;
        if self.function.is_none() {
            self.classes.push(class_fullname);
            assert(self@.classes =~= before.classes.push(class_fullname@));
        } else {
            self.ignored = self.ignored + 1;
        }
    }

    /// Leave the innermost class.
    pub fn leave_class_scope(&mut self)
        ensures
            final(self)@ == spec_leave_class(old(self)@),
    {
        let ghost before = self@;
        if self.ignored > 0 {
            self.ignored = self.ignored - 1;
        } else {
            let _ = self.classes.pop();
            proof {
                if before.classes.len() > 0 {
                    assert(self@.classes =~= before.classes.drop_last());
                }
            }
        }
    }

    /// The module being walked; `None` outside a module.
    pub fn current_module_id(&self) -> (r: Option<String>)
        ensures
            opt_view(r) == self@.module,
    {
        match &self.module {
            Some(m) => Some(m.clone()),
            None => None,
        }
    }

    /// See `spec_current_target`.
    pub fn current_target(&self) -> (r: Option<String>)
        ensures
            opt_view(r) == spec_current_target(self@),
    {
        match &self.module {
            None => None,
            Some(m) => match &self.function {
                Some(f) => match &f.fullname {
                    Some(n) => Some(n.clone()),
                    None => Some(String::new()),
                },
                None => Some(m.clone()),
            },
        }
    }

    /// See `spec_current_full_target`.
    pub fn current_full_target(&self) -> (r: Option<String>)
        ensures
            opt_view(r) == spec_current_full_target(self@),
    {
        match &self.module {
            None => None,
            Some(m) => match &self.function {
                Some(f) => match &f.fullname {
                    Some(n) => Some(n.clone()),
                    None => Some("None".to_owned()),
                },
                None => {
                    let k = self.classes.len();
                    if k > 0 {
                        Some(self.classes[k - 1].clone())
                    } else {
                        Some(m.clone())
                    }
                },
            },
        }
    }

    /// The short name of the outermost enclosing function, if any.
    pub fn current_function_name(&self) -> (r: Option<String>)
        ensures
            opt_view(r) == match self@.function {
                Some(f) => Some(f.name),
                None => None,
            },
    {
        match &self.function {
            Some(f) => Some(f.name.clone()),
            None => None,
        }
    }
}

/// Outside any function, the current full target is the class entered
/// last (the innermost one), and leaving it gives back the full target it
/// hid; with no class, it is the module; inside a function with a full
/// name, it is that function's full name. Entering a class never changes
/// the current target.
pub proof fn lemma_full_target_innermost(s: ScopeView, c: Seq<char>, m: Seq<char>, f: FunctionScopeView)
    requires
        scope_wf(s),
    ensures
        s.module is Some && s.function is None ==> spec_current_full_target(spec_enter_class(s, c))
            == Some(c),
        s.module is Some && s.function is None ==> spec_current_full_target(
            spec_leave_class(spec_enter_class(s, c)),
        ) == spec_current_full_target(s),
        spec_current_full_target(spec_enter_module(m)) == Some(m),
        spec_current_target(spec_enter_class(s, c)) == spec_current_target(s),
        s.module is Some && f.fullname is Some ==> spec_current_full_target(
            spec_enter_function(s, f),
        ) == (if s.function is None {
            f.fullname
        } else {
            spec_current_full_target(s)
        }),
        s.module is None ==> spec_current_full_target(s) is None,
{
    if s.module is Some && s.function is None {
        assert(spec_enter_class(s, c).classes.drop_last() =~= s.classes);
    }
}

/// Entering a function or a class and then leaving it restores the scope,
/// and every scope operation keeps scopes well formed.
pub proof fn lemma_scope_enter_leave(s: ScopeView, f: FunctionScopeView, c: Seq<char>)
    requires
        scope_wf(s),
    ensures
        spec_leave_function(spec_enter_function(s, f)) == s,
        spec_leave_class(spec_enter_class(s, c)) == s,
        scope_wf(spec_enter_function(s, f)),
        scope_wf(spec_leave_function(s)),
        scope_wf(spec_enter_class(s, c)),
        scope_wf(spec_leave_class(s)),
        scope_wf(spec_enter_module(c)),
{
    assert(s.functions.push(f).drop_last() =~= s.functions);
    assert(s.classes.push(c).drop_last() =~= s.classes);
}

// ---------------------------------------------------------------------------
// The dependency map
// ---------------------------------------------------------------------------

/// The dependencies found so far: which targets each trigger invalidates.
/// A trigger is present exactly when some target is recorded for it, so
/// the map is the set of its (trigger, target) pairs.
///
/// It is held as a list of distinct (trigger, target) pairs rather than as
/// a hash map from each trigger to a hash set of targets: vstd's
/// specifications of std's hash collections keyed by `String` leave little
/// to prove against (what a lookup or an insertion gives back by key), while
/// the pair list, kept free of duplicates by its type invariant, has an
/// exact set of pairs as its view, over which `insert` and `contains` are
/// stated exactly.
pub struct DependencyMap {
    pairs: Vec<(String, String)>,
}

/// The pairs of a list of string pairs.
pub open spec fn pair_set(pairs: Seq<(String, String)>) -> Set<(Seq<char>, Seq<char>)> {
    Set::new(
        |p: (Seq<char>, Seq<char>)|
            exists|i: int| 0 <= i < pairs.len() && #[trigger] pairs[i].0@ == p.0 && pairs[i].1@ == p.1,
    )
}

impl View for DependencyMap {
    type V = Set<(Seq<char>, Seq<char>)>;

    closed spec fn view(&self) -> Set<(Seq<char>, Seq<char>)> {
        pair_set(self.pairs@)
    }
}

/// No pair occurs twice.
pub open spec fn pairs_distinct(pairs: Seq<(String, String)>) -> bool {
    forall|i: int, j: int|
        0 <= i < j < pairs.len() ==> !(#[trigger] pairs[i].0@ == #[trigger] pairs[j].0@
            && pairs[i].1@ == pairs[j].1@)
}

impl DependencyMap {
    #[verifier::type_invariant]
    spec fn no_duplicate_pairs(self) -> bool {
        pairs_distinct(self.pairs@)
    }

    /// The empty map.
    pub fn new() -> (r: Self)
        ensures
            r@ == Set::<(Seq<char>, Seq<char>)>::empty(),
    {
        let r = DependencyMap { pairs: Vec::new() };
        assert(r@ =~= Set::<(Seq<char>, Seq<char>)>::empty());
        r
    }

    /// Whether `target` is recorded for `trigger`.
    pub fn contains(&self, trigger: &String, target: &String) -> (r: bool)
        ensures
            r == self@.contains((trigger@, target@)),
    {
        let mut i: usize = 0;
        while i < self.pairs.len()
            invariant
                i <= self.pairs@.len(),
                forall|j: int|
                    0 <= j < i ==> !(#[trigger] self.pairs@[j].0@ == trigger@ && self.pairs@[j].1@
                        == target@),
            decreases self.pairs.len() - i,
        {
            let (t, x) = &self.pairs[i];
            if t.eq(trigger) && x.eq(target) {
                assert(pair_set(self.pairs@).contains((trigger@, target@)));
                return true;
            }
            i = i + 1;
        }
        false
    }

    /// Record `target` for `trigger`.
    pub fn insert(&mut self, trigger: String, target: String)
        ensures
            final(self)@ == old(self)@.insert((trigger@, target@)),
    {
        proof {
            use_type_invariant(&*self);
        }
        if self.contains(&trigger, &target) {
            assert(self@ =~= self@.insert((trigger@, target@)));
            return;
        }
        let ghost before = self.pairs@;
        let ghost p = (trigger@, target@);
        assert forall|j: int| 0 <= j < before.len() implies !(before[j].0@ == p.0 && before[j].1@
            == p.1) by {
            if before[j].0@ == p.0 && before[j].1@ == p.1 {
                assert(pair_set(before).contains(p));
            }
        }
        let mut pairs: Vec<(String, String)> = Vec::new();
        std::mem::swap(&mut pairs, &mut self.pairs);
        assert(pairs@ == before);
        pairs.push((trigger, target));
        self.pairs = pairs;
        assert forall|q: (Seq<char>, Seq<char>)| pair_set(self.pairs@).contains(q) <==> pair_set(
            before,
        ).insert(p).contains(q) by {
            if pair_set(before).contains(q) {
                let i = choose|i: int| 0 <= i < before.len() && #[trigger] before[i].0@ == q.0 && before[i].1@ == q.1;
                assert(self.pairs@[i] == before[i]);
            }
            if pair_set(self.pairs@).contains(q) {
                let i = choose|i: int| 0 <= i < self.pairs@.len() && #[trigger] self.pairs@[i].0@ == q.0 && self.pairs@[i].1@ == q.1;
                if i < before.len() {
                    assert(self.pairs@[i] == before[i]);
                }
            }
            if q == p {
                assert(self.pairs@[before.len() as int].0@ == q.0);
            }
        }
        assert(self@ =~= old(self)@.insert((trigger@, target@)));
    }

    /// Every recorded (trigger, target) pair, each once.
    pub fn entries(&self) -> (r: Vec<(String, String)>)
        ensures
            pair_set(r@) == self@,
            pairs_distinct(r@),
    {
        proof {
            use_type_invariant(self);
        }
        let mut out: Vec<(String, String)> = Vec::new();
        let mut i: usize = 0;
        while i < self.pairs.len()
            invariant
                i <= self.pairs@.len(),
                out@.len() == i,
                forall|j: int| 0 <= j < i ==> #[trigger] out@[j].0@ == self.pairs@[j].0@ && out@[j].1@ == self.pairs@[j].1@,
            decreases self.pairs.len() - i,
        {
            let (t, x) = &self.pairs[i];
            out.push((t.clone(), x.clone()));
            i = i + 1;
        }
        assert forall|q: (Seq<char>, Seq<char>)| pair_set(out@).contains(q) <==> pair_set(self.pairs@).contains(q) by {
            if pair_set(out@).contains(q) {
                let j = choose|j: int| 0 <= j < out@.len() && #[trigger] out@[j].0@ == q.0 && out@[j].1@ == q.1;
                assert(self.pairs@[j].0@ == q.0);
            }
            if pair_set(self.pairs@).contains(q) {
                let j = choose|j: int| 0 <= j < self.pairs@.len() && #[trigger] self.pairs@[j].0@ == q.0 && self.pairs@[j].1@ == q.1;
                assert(out@[j].0@ == q.0);
            }
        }
        assert(pair_set(out@) =~= pair_set(self.pairs@));
        assert forall|a: int, b: int| 0 <= a < b < out@.len() implies !(#[trigger] out@[a].0@
            == #[trigger] out@[b].0@ && out@[a].1@ == out@[b].1@) by {
            assert(out@[a].0@ == self.pairs@[a].0@ && out@[a].1@ == self.pairs@[a].1@);
            assert(out@[b].0@ == self.pairs@[b].0@ && out@[b].1@ == self.pairs@[b].1@);
        }
        out
    }
}

/// The map after `add_dependency`: an ignored trigger changes nothing,
/// else the pair is recorded under the given target or, without one,
/// under the current target.
pub open spec fn spec_add_dependency(
    deps: Set<(Seq<char>, Seq<char>)>,
    scope: ScopeView,
    trigger: Seq<char>,
    target: Option<Seq<char>>,
) -> Option<Set<(Seq<char>, Seq<char>)>> {
    if ignored_trigger(trigger) {
        Some(deps)
    } else {
        match target {
            Some(t) => Some(deps.insert((trigger, t))),
            None => match spec_current_target(scope) {
                Some(t) => Some(deps.insert((trigger, t))),
                None => None,
            },
        }
    }
}

/// Record that `trigger` invalidates `target` (or, without one, the current
/// target). Triggers of the standard library and the typing modules are
/// dropped. Defers when no target is given and the walk is outside a
/// module; the map is then unchanged.
pub fn add_dependency(
    deps: &mut DependencyMap,
    scope: &Scope,
    trigger: String,
    target: Option<String>,
) -> (r: Result<(), DeferError>)
    ensures
        match spec_add_dependency(old(deps)@, scope@, trigger@, opt_view(target)) {
            Some(m) => r is Ok && final(deps)@ == m,
            None => r is Err && final(deps)@ == old(deps)@,
        },
{
    if is_ignored_trigger(trigger.as_str()) {
        return Ok(());
    }
    let t = match target {
        Some(t) => t,
        None => match scope.current_target() {
            Some(t) => t,
            None => return Err(DeferError),
        },
    };
    deps.insert(trigger, t);
    Ok(())
}

/// A recorded map never holds an ignored trigger when every pair came
/// through `add_dependency`: it keeps a map free of them.
pub proof fn lemma_add_dependency_never_ignored(
    deps: Set<(Seq<char>, Seq<char>)>,
    scope: ScopeView,
    trigger: Seq<char>,
    target: Option<Seq<char>>,
)
    requires
        forall|p: (Seq<char>, Seq<char>)| #[trigger] deps.contains(p) ==> !ignored_trigger(p.0),
    ensures
        spec_add_dependency(deps, scope, trigger, target) matches Some(m) ==> forall|
            p: (Seq<char>, Seq<char>),
        | #[trigger] m.contains(p) ==> !ignored_trigger(p.0),
{
}

// ---------------------------------------------------------------------------
// Class bases
// ---------------------------------------------------------------------------

/// The positions in a class's MRO of its non-trivial bases: every entry
/// after the class itself except `builtins.object`.
pub open spec fn spec_non_trivial_bases(mro: Seq<Seq<char>>) -> Seq<int>
    decreases mro.len(),
{
    if mro.len() <= 1 {
        seq![]
    } else {
        let prev = spec_non_trivial_bases(mro.drop_last());
        if mro.last() == "builtins.object"@ {
            prev
        } else {
            prev.push(mro.len() - 1)
        }
    }
}

/// The positions of the non-trivial bases in an MRO given by full names.
pub fn non_trivial_bases(mro_fullnames: &[String]) -> (r: Vec<usize>)
    ensures
        r@.map_values(|i: usize| i as int) == spec_non_trivial_bases(
            mro_fullnames@.map_values(|s: String| s@),
        ),
{
    let ghost names = mro_fullnames@.map_values(|s: String| s@);
    let object = "builtins.object".to_owned();
    let mut out: Vec<usize> = Vec::new();
    let mut i: usize = 1;
    if mro_fullnames.len() == 0 {
        assert(out@.map_values(|i: usize| i as int) =~= spec_non_trivial_bases(names));
        return out;
    }
    assert(names.take(1).len() <= 1);
    while i < mro_fullnames.len()
        invariant
            1 <= i <= mro_fullnames@.len(),
            names == mro_fullnames@.map_values(|s: String| s@),
            object@ == "builtins.object"@,
            out@.map_values(|i: usize| i as int) =~= spec_non_trivial_bases(names.take(i as int)),
        decreases mro_fullnames.len() - i,
    {
        let ghost prev = out@.map_values(|i: usize| i as int);
        assert(names.take(i + 1).drop_last() =~= names.take(i as int));
        assert(names.take(i + 1).last() == mro_fullnames@[i as int]@);
        if !mro_fullnames[i].eq(&object) {
            out.push(i);
            assert(out@.map_values(|i: usize| i as int) =~= prev.push(i as int));
        }
        i = i + 1;
    }
    assert(names.take(i as int) =~= names);
    out
}

/// Modules whose classes are not user bases.
pub open spec fn is_library_module(module: Seq<char>) -> bool {
    module == "builtins"@ || module == "typing"@ || module == "enum"@
}

/// Whether a class has a base (after itself in the MRO) defined outside
/// `builtins`, `typing` and `enum`.
pub open spec fn spec_has_user_bases(mro_modules: Seq<Seq<char>>) -> bool {
    exists|i: int| 1 <= i < mro_modules.len() && !is_library_module(#[trigger] mro_modules[i])
}

/// See `spec_has_user_bases`; the MRO is given by module names.
pub fn has_user_bases(mro_modules: &[String]) -> (r: bool)
    ensures
        r == spec_has_user_bases(mro_modules@.map_values(|s: String| s@)),
{
    let ghost names = mro_modules@.map_values(|s: String| s@);
    let builtins = "builtins".to_owned();
    let typing = "typing".to_owned();
    let enum_module = "enum".to_owned();
    let mut i: usize = 1;
    while i < mro_modules.len()
        invariant
            1 <= i,
            names == mro_modules@.map_values(|s: String| s@),
            builtins@ == "builtins"@,
            typing@ == "typing"@,
            enum_module@ == "enum"@,
            forall|j: int| 1 <= j < i && j < names.len() ==> is_library_module(#[trigger] names[j]),
        decreases mro_modules.len() - i,
    {
        let m = &mro_modules[i];
        assert(names[i as int] == m@);
        if !m.eq(&builtins) && !m.eq(&typing) && !m.eq(&enum_module) {
            return true;
        }
        i = i + 1;
    }
    false
}

/// `a.b`.
pub open spec fn dotted(a: Seq<char>, b: Seq<char>) -> Seq<char> {
    a + seq!['.'] + b
}

/// `a.b`.
pub fn make_dotted(a: &str, b: &str) -> (r: String)
    ensures
        r@ == dotted(a@, b@),
{
    proof {
        reveal_strlit(".");
    }
    let mut out = a.to_owned();
    out.append(".");
    out.append(b);
    out
}

/// A non-trivial base of a class: its full name and the names it defines.
pub struct BaseNames {
    pub fullname: String,
    pub names: Vec<String>,
}

/// A dependency to record, before it becomes a trigger: the name whose
/// trigger fires, and the name of the target (`None`: the current target).
pub type NamedDependency = (Seq<char>, Option<Seq<char>>);

/// Whether a member of a base is tracked: always without logical
/// dependencies; with them, only members the class redefines, other than
/// `__init__` and `__new__`.
pub open spec fn tracks_member(info_names: Seq<Seq<char>>, name: Seq<char>, logical: bool) -> bool {
    !logical || (info_names.contains(name) && name != "__init__"@ && name != "__new__"@)
}

/// The member dependencies that one base's names give a class: a change of
/// `base.name` invalidates `info.name`.
pub open spec fn spec_base_member_deps(
    info: Seq<char>,
    info_names: Seq<Seq<char>>,
    base: Seq<char>,
    base_names: Seq<Seq<char>>,
    logical: bool,
) -> Seq<NamedDependency>
    decreases base_names.len(),
{
    if base_names.len() == 0 {
        seq![]
    } else {
        let prev = spec_base_member_deps(info, info_names, base, base_names.drop_last(), logical);
        let name = base_names.last();
        if tracks_member(info_names, name, logical) {
            prev.push((dotted(base, name), Some(dotted(info, name))))
        } else {
            prev
        }
    }
}

/// The constructor and abstract-status dependencies one base gives a class
/// (without logical dependencies only).
pub open spec fn spec_base_constructor_deps(info: Seq<char>, base: Seq<char>, logical: bool) -> Seq<
    NamedDependency,
> {
    if logical {
        seq![]
    } else {
        seq![
            (dotted(base, "__init__"@), Some(dotted(info, "__init__"@))),
            (dotted(base, "__new__"@), Some(dotted(info, "__new__"@))),
            (dotted(base, "(abstract)"@), Some(dotted(info, "__init__"@))),
            (dotted(base, "(abstract)"@), None),
        ]
    }
}

/// The dependencies a class gets from its non-trivial bases, base by base.
pub open spec fn spec_base_deps(
    info: Seq<char>,
    info_names: Seq<Seq<char>>,
    bases: Seq<(Seq<char>, Seq<Seq<char>>)>,
    logical: bool,
) -> Seq<NamedDependency>
    decreases bases.len(),
{
    if bases.len() == 0 {
        seq![]
    } else {
        let b = bases.last();
        spec_base_deps(info, info_names, bases.drop_last(), logical) + spec_base_member_deps(
            info,
            info_names,
            b.0,
            b.1,
            logical,
        ) + spec_base_constructor_deps(info, b.0, logical)
    }
}

/// Whether a member of a base is tracked, spelled out: always without
/// logical dependencies; with them, when the class redefines it and it is
/// neither `__init__` nor `__new__`.
pub open spec fn member_is_tracked(info_names: Seq<Seq<char>>, name: Seq<char>, logical: bool) -> bool {
    !logical || (info_names.contains(name) && name != "__init__"@ && name != "__new__"@)
}

/// The dependency of `info.name` on `base.name`.
pub open spec fn member_dep(info: Seq<char>, base: Seq<char>, name: Seq<char>) -> NamedDependency {
    (dotted(base, name), Some(dotted(info, name)))
}

/// Whether a dependency is one that the base `b` gives the class `info`:
/// a tracked member of the base, or, without logical dependencies, one of
/// the base's constructor and abstract-status dependencies.
pub open spec fn given_by_base(
    d: NamedDependency,
    info: Seq<char>,
    info_names: Seq<Seq<char>>,
    b: (Seq<char>, Seq<Seq<char>>),
    logical: bool,
) -> bool {
    ||| exists|k: int|
        0 <= k < b.1.len() && member_is_tracked(info_names, #[trigger] b.1[k], logical) && d
            == member_dep(info, b.0, b.1[k])
    ||| !logical && (d == (dotted(b.0, "__init__"@), Some(dotted(info, "__init__"@))) || d == (
    dotted(b.0, "__new__"@), Some(dotted(info, "__new__"@))) || d == (dotted(b.0, "(abstract)"@), Some(
    dotted(info, "__init__"@))) || d == (dotted(b.0, "(abstract)"@), None::<Seq<char>>))
}

proof fn lemma_contains_append<A>(a: Seq<A>, b: Seq<A>)
    ensures
        forall|x: A| a.contains(x) ==> #[trigger] (a + b).contains(x),
        forall|x: A| b.contains(x) ==> #[trigger] (a + b).contains(x),
{
    assert forall|x: A| a.contains(x) implies #[trigger] (a + b).contains(x) by {
        let i = choose|i: int| 0 <= i < a.len() && a[i] == x;
        assert((a + b)[i] == x);
    }
    assert forall|x: A| b.contains(x) implies #[trigger] (a + b).contains(x) by {
        let i = choose|i: int| 0 <= i < b.len() && b[i] == x;
        assert((a + b)[a.len() + i] == x);
    }
}

/// One base's member dependencies are exactly its tracked members, each
/// making `base.name` invalidate `info.name`.
proof fn lemma_base_member_deps_exact(
    info: Seq<char>,
    info_names: Seq<Seq<char>>,
    base: Seq<char>,
    names: Seq<Seq<char>>,
    logical: bool,
)
    ensures
        forall|k: int|
            0 <= k < names.len() && member_is_tracked(info_names, #[trigger] names[k], logical)
                ==> spec_base_member_deps(info, info_names, base, names, logical).contains(
                member_dep(info, base, names[k]),
            ),
        forall|i: int|
            #![trigger spec_base_member_deps(info, info_names, base, names, logical)[i]]
            0 <= i < spec_base_member_deps(info, info_names, base, names, logical).len() ==> exists|
                k: int,
            |
                0 <= k < names.len() && member_is_tracked(info_names, #[trigger] names[k], logical)
                    && spec_base_member_deps(info, info_names, base, names, logical)[i]
                    == member_dep(info, base, names[k]),
    decreases names.len(),
{
    if names.len() > 0 {
        let prev_names = names.drop_last();
        lemma_base_member_deps_exact(info, info_names, base, prev_names, logical);
        let prev = spec_base_member_deps(info, info_names, base, prev_names, logical);
        let r = spec_base_member_deps(info, info_names, base, names, logical);
        let last = names.last();
        assert forall|k: int|
            0 <= k < names.len() && member_is_tracked(info_names, #[trigger] names[k], logical)
                implies r.contains(member_dep(info, base, names[k])) by {
            if k < names.len() - 1 {
                assert(prev_names[k] == names[k]);
                let i = choose|i: int| 0 <= i < prev.len() && prev[i] == member_dep(info, base, names[k]);
                assert(r[i] == prev[i]);
            } else {
                assert(r[prev.len() as int] == member_dep(info, base, last));
            }
        }
        assert forall|i: int| #![trigger r[i]] 0 <= i < r.len() implies exists|k: int|
            0 <= k < names.len() && member_is_tracked(info_names, #[trigger] names[k], logical)
                && r[i] == member_dep(info, base, names[k]) by {
            if i < prev.len() {
                assert(r[i] == prev[i]);
                let k = choose|k: int|
                    0 <= k < prev_names.len() && member_is_tracked(info_names, #[trigger] prev_names[k], logical)
                        && prev[i] == member_dep(info, base, prev_names[k]);
                assert(names[k] == prev_names[k]);
            } else {
                assert(member_is_tracked(info_names, names[names.len() - 1], logical));
            }
        }
    }
}

/// Without logical dependencies, every base's constructor and
/// abstract-status dependencies are recorded.
proof fn lemma_base_deps_constructors(
    info: Seq<char>,
    info_names: Seq<Seq<char>>,
    bases: Seq<(Seq<char>, Seq<Seq<char>>)>,
    logical: bool,
)
    requires
        !logical,
    ensures
        forall|j: int|
            0 <= j < bases.len() ==> {
                let r = spec_base_deps(info, info_names, bases, logical);
                let b = (#[trigger] bases[j]).0;
                &&& r.contains((dotted(b, "__init__"@), Some(dotted(info, "__init__"@))))
                &&& r.contains((dotted(b, "__new__"@), Some(dotted(info, "__new__"@))))
                &&& r.contains((dotted(b, "(abstract)"@), Some(dotted(info, "__init__"@))))
                &&& r.contains((dotted(b, "(abstract)"@), None::<Seq<char>>))
            },
    decreases bases.len(),
{
    if bases.len() > 0 {
        let pb = bases.drop_last();
        lemma_base_deps_constructors(info, info_names, pb, logical);
        let b = bases.last();
        let prev = spec_base_deps(info, info_names, pb, logical);
        let mem = spec_base_member_deps(info, info_names, b.0, b.1, logical);
        let ctor = spec_base_constructor_deps(info, b.0, logical);
        let r = spec_base_deps(info, info_names, bases, logical);
        assert(r == prev + mem + ctor);
        lemma_contains_append(prev, mem);
        lemma_contains_append(prev + mem, ctor);
        assert(ctor.contains(ctor[0]));
        assert(ctor.contains(ctor[1]));
        assert(ctor.contains(ctor[2]));
        assert(ctor.contains(ctor[3]));
        assert forall|j: int| 0 <= j < bases.len() implies {
            let r = spec_base_deps(info, info_names, bases, logical);
            let b = (#[trigger] bases[j]).0;
            &&& r.contains((dotted(b, "__init__"@), Some(dotted(info, "__init__"@))))
            &&& r.contains((dotted(b, "__new__"@), Some(dotted(info, "__new__"@))))
            &&& r.contains((dotted(b, "(abstract)"@), Some(dotted(info, "__init__"@))))
            &&& r.contains((dotted(b, "(abstract)"@), None::<Seq<char>>))
        } by {
            if j < pb.len() {
                assert(pb[j] == bases[j]);
            }
        }
    }
}

/// Every tracked member of every base is recorded.
proof fn lemma_base_deps_members(
    info: Seq<char>,
    info_names: Seq<Seq<char>>,
    bases: Seq<(Seq<char>, Seq<Seq<char>>)>,
    logical: bool,
)
    ensures
        forall|j: int, k: int|
            0 <= j < bases.len() && 0 <= k < bases[j].1.len() && member_is_tracked(
                info_names,
                #[trigger] bases[j].1[k],
                logical,
            ) ==> spec_base_deps(info, info_names, bases, logical).contains(
                member_dep(info, bases[j].0, bases[j].1[k]),
            ),
    decreases bases.len(),
{
    if bases.len() > 0 {
        let pb = bases.drop_last();
        lemma_base_deps_members(info, info_names, pb, logical);
        let b = bases.last();
        let prev = spec_base_deps(info, info_names, pb, logical);
        let mem = spec_base_member_deps(info, info_names, b.0, b.1, logical);
        let ctor = spec_base_constructor_deps(info, b.0, logical);
        let r = spec_base_deps(info, info_names, bases, logical);
        assert(r == prev + mem + ctor);
        lemma_base_member_deps_exact(info, info_names, b.0, b.1, logical);
        lemma_contains_append(prev, mem);
        lemma_contains_append(prev + mem, ctor);
        assert forall|j: int, k: int|
            0 <= j < bases.len() && 0 <= k < bases[j].1.len() && member_is_tracked(
                info_names,
                #[trigger] bases[j].1[k],
                logical,
            ) implies r.contains(member_dep(info, bases[j].0, bases[j].1[k])) by {
            if j < pb.len() {
                assert(pb[j] == bases[j]);
                assert(member_is_tracked(info_names, pb[j].1[k], logical));
            } else {
                assert(member_is_tracked(info_names, b.1[k], logical));
            }
        }
    }
}

/// Every recorded dependency is one that some base gives.
proof fn lemma_base_deps_sound(
    info: Seq<char>,
    info_names: Seq<Seq<char>>,
    bases: Seq<(Seq<char>, Seq<Seq<char>>)>,
    logical: bool,
)
    ensures
        forall|i: int|
            0 <= i < spec_base_deps(info, info_names, bases, logical).len() ==> exists|j: int|
                0 <= j < bases.len() && given_by_base(
                    #[trigger] spec_base_deps(info, info_names, bases, logical)[i],
                    info,
                    info_names,
                    bases[j],
                    logical,
                ),
    decreases bases.len(),
{
    if bases.len() > 0 {
        let pb = bases.drop_last();
        lemma_base_deps_sound(info, info_names, pb, logical);
        let b = bases.last();
        let prev = spec_base_deps(info, info_names, pb, logical);
        let mem = spec_base_member_deps(info, info_names, b.0, b.1, logical);
        let ctor = spec_base_constructor_deps(info, b.0, logical);
        let r = spec_base_deps(info, info_names, bases, logical);
        assert(r == prev + mem + ctor);
        lemma_base_member_deps_exact(info, info_names, b.0, b.1, logical);
        assert(b == bases[bases.len() - 1]);
        assert forall|i: int| 0 <= i < r.len() implies exists|j: int|
            0 <= j < bases.len() && given_by_base(
                #[trigger] r[i],
                info,
                info_names,
                bases[j],
                logical,
            ) by {
            if i < prev.len() {
                assert(r[i] == prev[i]);
                let j = choose|j: int|
                    0 <= j < pb.len() && given_by_base(#[trigger] prev[i], info, info_names, pb[j], logical);
                assert(pb[j] == bases[j]);
            } else if i < prev.len() + mem.len() {
                assert(r[i] == mem[i - prev.len()]);
                let k = choose|k: int|
                    0 <= k < b.1.len() && member_is_tracked(info_names, #[trigger] b.1[k], logical)
                        && mem[i - prev.len()] == member_dep(info, b.0, b.1[k]);
                assert(given_by_base(r[i], info, info_names, b, logical));
            } else {
                assert(r[i] == ctor[i - prev.len() - mem.len()]);
                assert(given_by_base(r[i], info, info_names, b, logical));
            }
        }
    }
}

/// The dependencies a class gets from its bases cover every base: without
/// logical dependencies each base's `__init__`, `__new__` and abstract
/// status invalidate the class's `__init__`, `__new__` and `__init__`, and
/// its abstract status the current target; each tracked member `b.name` of
/// each base invalidates `info.name`; and every dependency recorded is one
/// that some base gives.
pub proof fn lemma_base_deps_cover_every_base(
    info: Seq<char>,
    info_names: Seq<Seq<char>>,
    bases: Seq<(Seq<char>, Seq<Seq<char>>)>,
    logical: bool,
)
    ensures
        forall|j: int|
            0 <= j < bases.len() && !logical ==> {
                let r = spec_base_deps(info, info_names, bases, logical);
                let b = (#[trigger] bases[j]).0;
                &&& r.contains((dotted(b, "__init__"@), Some(dotted(info, "__init__"@))))
                &&& r.contains((dotted(b, "__new__"@), Some(dotted(info, "__new__"@))))
                &&& r.contains((dotted(b, "(abstract)"@), Some(dotted(info, "__init__"@))))
                &&& r.contains((dotted(b, "(abstract)"@), None::<Seq<char>>))
            },
        forall|j: int, k: int|
            0 <= j < bases.len() && 0 <= k < bases[j].1.len() && member_is_tracked(
                info_names,
                #[trigger] bases[j].1[k],
                logical,
            ) ==> spec_base_deps(info, info_names, bases, logical).contains(
                member_dep(info, bases[j].0, bases[j].1[k]),
            ),
        forall|i: int|
            0 <= i < spec_base_deps(info, info_names, bases, logical).len() ==> exists|j: int|
                0 <= j < bases.len() && given_by_base(
                    #[trigger] spec_base_deps(info, info_names, bases, logical)[i],
                    info,
                    info_names,
                    bases[j],
                    logical,
                ),
{
    if !logical {
        lemma_base_deps_constructors(info, info_names, bases, logical);
    }
    lemma_base_deps_members(info, info_names, bases, logical);
    lemma_base_deps_sound(info, info_names, bases, logical);
}

/// The views of a list of names.
pub open spec fn names_view(names: Seq<String>) -> Seq<Seq<char>> {
    names.map_values(|s: String| s@)
}

/// The views of named dependencies.
pub open spec fn named_deps_view(deps: Seq<(String, Option<String>)>) -> Seq<NamedDependency> {
    deps.map_values(|d: (String, Option<String>)| (d.0@, opt_view(d.1)))
}

/// The views of bases.
pub open spec fn bases_view(bases: Seq<BaseNames>) -> Seq<(Seq<char>, Seq<Seq<char>>)> {
    bases.map_values(|b: BaseNames| (b.fullname@, names_view(b.names@)))
}

/// Whether `name` is among `names`.
pub fn contains_name(names: &[String], name: &String) -> (r: bool)
    ensures
        r == names_view(names@).contains(name@),
{
    let mut i: usize = 0;
    while i < names.len()
        invariant
            i <= names@.len(),
            forall|j: int| 0 <= j < i ==> names_view(names@)[j] != name@,
        decreases names.len() - i,
    {
        if names[i].eq(name) {
            assert(names_view(names@)[i as int] == name@);
            return true;
        }
        i = i + 1;
    }
    false
}

/// The dependencies a class (`info_fullname`, defining `info_names`) gets
/// from its non-trivial bases: each tracked member `base.name` invalidates
/// `info.name`; without logical dependencies, the base's `__init__`,
/// `__new__` and abstract status also invalidate the class's constructors,
/// and its abstract status the current target.
pub fn base_dependencies(
    info_fullname: &str,
    info_names: &[String],
    bases: &[BaseNames],
    use_logical_deps: bool,
) -> (r: Vec<(String, Option<String>)>)
    ensures
        named_deps_view(r@) == spec_base_deps(
            info_fullname@,
            names_view(info_names@),
            bases_view(bases@),
            use_logical_deps,
        ),
{
    proof {
        reveal_strlit("__init__");
        reveal_strlit("__new__");
    }
    let ghost info = info_fullname@;
    let ghost inames = names_view(info_names@);
    let ghost bview = bases_view(bases@);
    let init_name = "__init__".to_owned();
    let new_name = "__new__".to_owned();
    let mut out: Vec<(String, Option<String>)> = Vec::new();
    let mut i: usize = 0;
    while i < bases.len()
        invariant
            i <= bases@.len(),
            info == info_fullname@,
            inames == names_view(info_names@),
            bview == bases_view(bases@),
            init_name@ == "__init__"@,
            new_name@ == "__new__"@,
            named_deps_view(out@) =~= spec_base_deps(info, inames, bview.take(i as int), use_logical_deps),
        decreases bases.len() - i,
    {
        let base = &bases[i];
        let ghost bv = bview[i as int];
        assert(bv == (base.fullname@, names_view(base.names@)));
        let ghost start = named_deps_view(out@);
        let mut k: usize = 0;
        while k < base.names.len()
            invariant
                k <= base.names@.len(),
                info == info_fullname@,
                inames == names_view(info_names@),
                init_name@ == "__init__"@,
                new_name@ == "__new__"@,
                named_deps_view(out@) =~= start + spec_base_member_deps(
                    info,
                    inames,
                    base.fullname@,
                    names_view(base.names@).take(k as int),
                    use_logical_deps,
                ),
            decreases base.names.len() - k,
        {
            let name = &base.names[k];
            let ghost before = named_deps_view(out@);
            assert(names_view(base.names@).take(k + 1).drop_last() =~= names_view(base.names@).take(
                k as int,
            ));
            assert(names_view(base.names@).take(k + 1).last() == name@);
            let tracked_member = if use_logical_deps {
                contains_name(info_names, name) && !name.eq(&init_name) && !name.eq(&new_name)
            } else {
                true
            };
            if tracked_member {
                let trigger = make_dotted(base.fullname.as_str(), name.as_str());
                let target = make_dotted(info_fullname, name.as_str());
                out.push((trigger, Some(target)));
                assert(named_deps_view(out@) =~= before.push(
                    (dotted(base.fullname@, name@), Some(dotted(info, name@))),
                ));
            }
            k = k + 1;
        }
        assert(names_view(base.names@).take(k as int) =~= names_view(base.names@));
        let ghost mid = named_deps_view(out@);
        if !use_logical_deps {
            let bf = base.fullname.as_str();
            out.push((make_dotted(bf, "__init__"), Some(make_dotted(info_fullname, "__init__"))));
            out.push((make_dotted(bf, "__new__"), Some(make_dotted(info_fullname, "__new__"))));
            out.push((make_dotted(bf, "(abstract)"), Some(make_dotted(info_fullname, "__init__"))));
            out.push((make_dotted(bf, "(abstract)"), None));
        }
        assert(named_deps_view(out@) =~= mid + spec_base_constructor_deps(info, base.fullname@, use_logical_deps));
        assert(bview.take(i + 1).drop_last() =~= bview.take(i as int));
        assert(bview.take(i + 1).last() == bv);
        i = i + 1;
    }
    assert(bview.take(i as int) =~= bview);
    out
}

/// The dependencies a function definition gets from the non-trivial bases
/// of its class: a change of `base.name` invalidates the current target.
/// With logical dependencies, `__init__` and `__new__` get none.
pub open spec fn spec_method_base_deps(name: Seq<char>, bases: Seq<Seq<char>>, logical: bool) -> Seq<
    Seq<char>,
>
    decreases bases.len(),
{
    if bases.len() == 0 {
        seq![]
    } else {
        let prev = spec_method_base_deps(name, bases.drop_last(), logical);
        if !logical || (name != "__init__"@ && name != "__new__"@) {
            prev.push(dotted(bases.last(), name))
        } else {
            prev
        }
    }
}

/// See `spec_method_base_deps`; the names whose triggers fire.
pub fn method_base_dependencies(name: &String, base_fullnames: &[String], use_logical_deps: bool) -> (r:
    Vec<String>)
    ensures
        names_view(r@) == spec_method_base_deps(name@, names_view(base_fullnames@), use_logical_deps),
{
    let ghost bases = names_view(base_fullnames@);
    let init_name = "__init__".to_owned();
    let new_name = "__new__".to_owned();
    let tracked_name = !use_logical_deps || (!name.eq(&init_name) && !name.eq(&new_name));
    let mut out: Vec<String> = Vec::new();
    let mut i: usize = 0;
    while i < base_fullnames.len()
        invariant
            i <= base_fullnames@.len(),
            bases == names_view(base_fullnames@),
            tracked_name == (!use_logical_deps || (name@ != "__init__"@ && name@ != "__new__"@)),
            names_view(out@) =~= spec_method_base_deps(name@, bases.take(i as int), use_logical_deps),
        decreases base_fullnames.len() - i,
    {
        assert(bases.take(i + 1).drop_last() =~= bases.take(i as int));
        assert(bases.take(i + 1).last() == base_fullnames@[i as int]@);
        let ghost before = names_view(out@);
        if tracked_name {
            out.push(make_dotted(base_fullnames[i].as_str(), name.as_str()));
            assert(names_view(out@) =~= before.push(dotted(base_fullnames@[i as int]@, name@)));
        }
        i = i + 1;
    }
    assert(bases.take(i as int) =~= bases);
    out
}

/// The dependencies of `super().name`: `base.name` for each non-trivial
/// base in MRO order, up to and including the first base that defines
/// `name`.
pub open spec fn spec_super_deps(name: Seq<char>, bases: Seq<(Seq<char>, bool)>) -> Seq<Seq<char>>
    decreases bases.len(),
{
    if bases.len() == 0 {
        seq![]
    } else if bases[0].1 {
        seq![dotted(bases[0].0, name)]
    } else {
        seq![dotted(bases[0].0, name)] + spec_super_deps(name, bases.drop_first())
    }
}

/// The views of (full name, defines the member) pairs.
pub open spec fn defs_view(bases: Seq<(String, bool)>) -> Seq<(Seq<char>, bool)> {
    bases.map_values(|b: (String, bool)| (b.0@, b.1))
}

/// See `spec_super_deps`; each base comes with whether it defines `name`.
pub fn super_dependencies(name: &String, bases: &[(String, bool)]) -> (r: Vec<String>)
    ensures
        names_view(r@) == spec_super_deps(name@, defs_view(bases@)),
{
    let ghost all = defs_view(bases@);
    let mut out: Vec<String> = Vec::new();
    let mut i: usize = 0;
    assert(all.skip(0) =~= all);
    assert(names_view(out@) + spec_super_deps(name@, all) =~= spec_super_deps(name@, all));
    while i < bases.len()
        invariant
            i <= bases@.len(),
            all == defs_view(bases@),
            spec_super_deps(name@, all) == names_view(out@) + spec_super_deps(name@, all.skip(i as int)),
        decreases bases.len() - i,
    {
        let ghost rest = all.skip(i as int);
        let ghost before = names_view(out@);
        let (full, defines) = &bases[i];
        assert(rest[0] == (full@, *defines));
        assert(rest.drop_first() =~= all.skip(i + 1));
        out.push(make_dotted(full.as_str(), name.as_str()));
        assert(names_view(out@) =~= before + seq![dotted(full@, name@)]);
        if *defines {
            assert(spec_super_deps(name@, rest) == seq![dotted(full@, name@)]);
            assert(names_view(out@) + seq![] =~= names_view(out@));
            return out;
        }
        assert(before + (seq![dotted(full@, name@)] + spec_super_deps(name@, all.skip(i + 1)))
            =~= names_view(out@) + spec_super_deps(name@, all.skip(i + 1)));
        i = i + 1;
    }
    assert(all.skip(i as int) =~= seq![]);
    assert(names_view(out@) + seq![] =~= names_view(out@));
    out
}

/// The names whose triggers `from mod import a, b` depends on: the module
/// and each imported name in it.
pub open spec fn spec_import_from_deps(module: Seq<char>, names: Seq<Seq<char>>) -> Seq<Seq<char>> {
    seq![module] + names.map_values(|n: Seq<char>| dotted(module, n))
}

/// See `spec_import_from_deps`.
pub fn import_from_dependencies(module: &String, names: &[String]) -> (r: Vec<String>)
    ensures
        names_view(r@) == spec_import_from_deps(module@, names_view(names@)),
{
    let ghost nv = names_view(names@);
    let mut out: Vec<String> = Vec::new();
    out.push(module.clone());
    let mut i: usize = 0;
    while i < names.len()
        invariant
            i <= names@.len(),
            nv == names_view(names@),
            names_view(out@) =~= seq![module@] + nv.take(i as int).map_values(
                |n: Seq<char>| dotted(module@, n),
            ),
        decreases names.len() - i,
    {
        let ghost before = names_view(out@);
        out.push(make_dotted(module.as_str(), names[i].as_str()));
        assert(names_view(out@) =~= before.push(dotted(module@, nv[i as int])));
        assert(nv.take(i + 1).map_values(|n: Seq<char>| dotted(module@, n)) =~= nv.take(
            i as int,
        ).map_values(|n: Seq<char>| dotted(module@, n)).push(dotted(module@, nv[i as int])));
        i = i + 1;
    }
    assert(nv.take(i as int) =~= nv);
    out
}

// ---------------------------------------------------------------------------
// Operators
// ---------------------------------------------------------------------------

/// Which operand of a binary operation a method dependency is about.
#[derive(Debug, Clone, Copy, PartialEq, Eq, Structural)]
pub enum Operand {
    Left,
    Right,
}

/// Whether two strings are equal, character by character.
pub fn str_eq(a: &str, b: &str) -> (r: bool)
    ensures
        r == (a@ == b@),
{
    if a.unicode_len() != b.unicode_len() {
        return false;
    }
    let r = str_starts_with(a, b);
    assert(a@.subrange(0, b@.len() as int) =~= a@);
    r
}

/// The operator-method dependencies of a binary operation, given the
/// operator's method (if it has one) and that method's reflected method
/// (if it has one): `in` looks up its method on the right operand; any
/// other operator looks up its method on the left operand and the
/// reflected method on the right one.
pub open spec fn spec_binary_op_deps(
    op: Seq<char>,
    method: Option<Seq<char>>,
    reverse_method: Option<Seq<char>>,
) -> Seq<(Operand, Seq<char>)> {
    match method {
        None => seq![],
        Some(m) => if op == "in"@ {
            seq![(Operand::Right, m)]
        } else {
            match reverse_method {
                Some(r) => seq![(Operand::Left, m), (Operand::Right, r)],
                None => seq![(Operand::Left, m)],
            }
        },
    }
}

/// See `spec_binary_op_deps`.
pub fn binary_op_dependencies(op: &str, method: Option<String>, reverse_method: Option<String>) -> (r:
    Vec<(Operand, String)>)
    ensures
        r@.map_values(|d: (Operand, String)| (d.0, d.1@)) == spec_binary_op_deps(
            op@,
            opt_view(method),
            opt_view(reverse_method),
        ),
{
    let mut out: Vec<(Operand, String)> = Vec::new();
    match method {
        None => {},
        Some(m) => {
            if str_eq(op, "in") {
                out.push((Operand::Right, m));
            } else {
                out.push((Operand::Left, m));
                match reverse_method {
                    Some(r) => out.push((Operand::Right, r)),
                    None => {},
                }
            }
        },
    }
    assert(out@.map_values(|d: (Operand, String)| (d.0, d.1@)) =~= spec_binary_op_deps(
        op@,
        opt_view(method),
        opt_view(reverse_method),
    ));
    out
}

/// The in-place variant of an operator method: `__i` followed by the
/// method name from its third byte on (`__add__` gives `__iadd__`). `None`
/// when the third byte does not start a character.
pub open spec fn spec_inplace_method(method: Seq<char>) -> Option<Seq<char>> {
    let bytes = encode_utf8(method);
    if is_char_boundary(bytes, 2) {
        Some("__i"@ + decode_utf8(bytes.subrange(2, bytes.len() as int)))
    } else {
        None
    }
}

/// See `spec_inplace_method`.
pub fn inplace_method_name(method: &str) -> (r: Option<String>)
    ensures
        opt_view(r) == spec_inplace_method(method@),
{
    if !method.is_char_boundary(2) {
        return None;
    }
    let (_, rest) = method.split_at(2);
    proof {
        vstd::utf8::encode_utf8_decode_utf8(rest@);
    }
    let mut out = "__i".to_owned();
    out.append(rest);
    Some(out)
}

/// The parts of a proper type that operator-method dependencies look at.
pub enum OperatorType {
    /// An instance of the class with this full name.
    Instance { fullname: String },
    /// A union of these (proper) items.
    Union { items: Vec<OperatorType> },
    /// A callable that is a type object, with its (proper) fallback.
    TypeObject { fallback: Box<OperatorType> },
    /// `Type[C]` for an instance type `C`, with the (proper) metaclass type
    /// of `C` when it has one.
    TypeOfInstance { metaclass: Option<Box<OperatorType>> },
    /// A type variable, with its (proper) upper bound; `None` when the
    /// bound has no proper type.
    TypeVar { upper_bound: Option<Box<OperatorType>> },
    /// A tuple, with its partial fallback.
    Tuple { fallback: Box<OperatorType> },
    /// Any other type.
    Other,
}

/// The names whose triggers an operator `method` on a value of type `t`
/// depends on: `C.method` for each class `C` the lookup can reach. A type
/// variable is replaced by its upper bound and then a tuple by its
/// fallback (one level each); unions contribute each item, type objects
/// their fallback, and `Type[C]` the metaclass of `C`.
pub open spec fn spec_operator_deps(t: OperatorType, method: Seq<char>) -> Seq<Seq<char>>
    decreases t, 3int,
{
    match t {
        OperatorType::TypeVar { upper_bound } => match upper_bound {
            Some(b) => spec_operator_deps_after_typevar(*b, method),
            None => seq![],
        },
        _ => spec_operator_deps_after_typevar(t, method),
    }
}

pub open spec fn spec_operator_deps_after_typevar(t: OperatorType, method: Seq<char>) -> Seq<
    Seq<char>,
>
    decreases t, 2int,
{
    match t {
        OperatorType::Tuple { fallback } => spec_operator_deps_dispatch(*fallback, method),
        _ => spec_operator_deps_dispatch(t, method),
    }
}

pub open spec fn spec_operator_deps_dispatch(t: OperatorType, method: Seq<char>) -> Seq<Seq<char>>
    decreases t, 1int,
{
    match t {
        OperatorType::Instance { fullname } => seq![dotted(fullname@, method)],
        OperatorType::Union { items } => spec_operator_deps_items(items@, method),
        OperatorType::TypeObject { fallback } => spec_operator_deps(*fallback, method),
        OperatorType::TypeOfInstance { metaclass } => match metaclass {
            Some(m) => spec_operator_deps(*m, method),
            None => seq![],
        },
        _ => seq![],
    }
}

pub open spec fn spec_operator_deps_items(items: Seq<OperatorType>, method: Seq<char>) -> Seq<
    Seq<char>,
>
    decreases items, 0int,
{
    if items.len() == 0 {
        seq![]
    } else {
        spec_operator_deps_items(items.drop_last(), method) + spec_operator_deps(
            items.last(),
            method,
        )
    }
}

/// See `spec_operator_deps`.
pub fn operator_method_dependencies(t: &OperatorType, method: &str) -> (r: Vec<String>)
    ensures
        names_view(r@) == spec_operator_deps(*t, method@),
    decreases *t, 3int,
{
    match t {
        OperatorType::TypeVar { upper_bound } => match upper_bound {
            Some(b) => operator_deps_after_typevar(b, method),
            None => Vec::new(),
        },
        _ => operator_deps_after_typevar(t, method),
    }
}

fn operator_deps_after_typevar(t: &OperatorType, method: &str) -> (r: Vec<String>)
    ensures
        names_view(r@) == spec_operator_deps_after_typevar(*t, method@),
    decreases *t, 2int,
{
    match t {
        OperatorType::Tuple { fallback } => operator_deps_dispatch(fallback, method),
        _ => operator_deps_dispatch(t, method),
    }
}

fn operator_deps_dispatch(t: &OperatorType, method: &str) -> (r: Vec<String>)
    ensures
        names_view(r@) == spec_operator_deps_dispatch(*t, method@),
    decreases *t, 1int,
{
    match t {
        OperatorType::Instance { fullname } => {
            let mut out = Vec::new();
            out.push(make_dotted(fullname.as_str(), method));
            assert(names_view(out@) =~= seq![dotted(fullname@, method@)]);
            out
        },
        OperatorType::Union { items } => {
            let mut out: Vec<String> = Vec::new();
            let mut i: usize = 0;
            while i < items.len()
                invariant
                    i <= items@.len(),
                    *t == (OperatorType::Union { items: *items }),
                    names_view(out@) =~= spec_operator_deps_items(items@.take(i as int), method@),
                decreases items.len() - i,
            {
                assert(items@.take(i + 1).drop_last() =~= items@.take(i as int));
                let ghost before = names_view(out@);
                proof {
                    assert((*t)->items == *items);
                    assert(decreases_to!(*t => (*t)->items));
                    assert(decreases_to!(*items => items@));
                    assert(decreases_to!(items@ => items@[i as int]));
                }
                let part = operator_method_dependencies(&items[i], method);
                let mut k: usize = 0;
                while k < part.len()
                    invariant
                        k <= part@.len(),
                        i < items@.len(),
                        *t == (OperatorType::Union { items: *items }),
                        names_view(out@) =~= before + names_view(part@).take(k as int),
                    decreases part.len() - k,
                {
                    let ghost before_k = names_view(out@);
                    let item = part[k].clone();
                    assert(item@ == names_view(part@)[k as int]);
                    out.push(item);
                    assert(names_view(out@) =~= before_k.push(names_view(part@)[k as int]));
                    k = k + 1;
                    assert(names_view(out@) =~= before + names_view(part@).take(k as int));
                }
                assert(names_view(part@).take(k as int) =~= names_view(part@));
                i = i + 1;
            }
            assert(items@.take(i as int) =~= items@);
            out
        },
        OperatorType::TypeObject { fallback } => operator_method_dependencies(fallback, method),
        OperatorType::TypeOfInstance { metaclass } => match metaclass {
            Some(m) => operator_method_dependencies(m, method),
            None => Vec::new(),
        },
        _ => Vec::new(),
    }
}

// ---------------------------------------------------------------------------
// Dependencies before they become triggers
// ---------------------------------------------------------------------------

/// What fires a dependency: the trigger of a name, the wildcard trigger of
/// a module, or a trigger already made (one of a type's triggers).
pub enum Trigger {
    Name(String),
    Wildcard(String),
    Made(String),
}

/// Where a dependency is recorded: the current target, the trigger of a
/// name, or a target given as is.
pub enum Target {
    Current,
    TriggerOf(String),
    Plain(String),
}

pub enum TriggerView {
    Name(Seq<char>),
    Wildcard(Seq<char>),
    Made(Seq<char>),
}

pub enum TargetView {
    Current,
    TriggerOf(Seq<char>),
    Plain(Seq<char>),
}

impl View for Trigger {
    type V = TriggerView;

    open spec fn view(&self) -> TriggerView {
        match self {
            Trigger::Name(n) => TriggerView::Name(n@),
            Trigger::Wildcard(m) => TriggerView::Wildcard(m@),
            Trigger::Made(t) => TriggerView::Made(t@),
        }
    }
}

impl View for Target {
    type V = TargetView;

    open spec fn view(&self) -> TargetView {
        match self {
            Target::Current => TargetView::Current,
            Target::TriggerOf(n) => TargetView::TriggerOf(n@),
            Target::Plain(t) => TargetView::Plain(t@),
        }
    }
}

/// The views of a list of dependencies.
pub open spec fn deps_view(deps: Seq<(Trigger, Target)>) -> Seq<(TriggerView, TargetView)> {
    deps.map_values(|d: (Trigger, Target)| (d.0@, d.1@))
}

/// A named dependency as a dependency: the trigger of the name, recorded
/// under the trigger of the target name or under the current target.
pub open spec fn named_as_dep(d: NamedDependency) -> (TriggerView, TargetView) {
    (
        TriggerView::Name(d.0),
        match d.1 {
            Some(t) => TargetView::TriggerOf(t),
            None => TargetView::Current,
        },
    )
}

/// What a class's member variables add: a variable initialized in the
/// class body of a class with user bases makes the current target depend
/// on `info.name`, and for each non-trivial base `base.name` invalidates
/// `info.name`. Each member comes
/// with `Some(initialized in class)` when it is a variable, else `None`.
pub open spec fn spec_member_var_deps(
    info: Seq<char>,
    members: Seq<(Seq<char>, Option<bool>)>,
    has_user_bases: bool,
    bases: Seq<Seq<char>>,
) -> Seq<(TriggerView, TargetView)>
    decreases members.len(),
{
    if members.len() == 0 {
        seq![]
    } else {
        let prev = spec_member_var_deps(info, members.drop_last(), has_user_bases, bases);
        let (name, var) = members.last();
        match var {
            None => prev,
            Some(initialized) => {
                let own = if initialized && has_user_bases {
                    seq![(TriggerView::Name(dotted(info, name)), TargetView::Current)]
                } else {
                    seq![]
                };
                prev + own + bases.map_values(
                    |b: Seq<char>|
                        (TriggerView::Name(dotted(b, name)), TargetView::TriggerOf(dotted(info, name))),
                )
            },
        }
    }
}

/// The plain facts about a class that its dependencies are computed from.
pub struct TypeInfoFacts {
    /// The current full target when the class is processed.
    pub target: String,
    /// The class's full name.
    pub fullname: String,
    /// The triggers of the class's base types, base after base.
    pub base_type_triggers: Vec<String>,
    /// The triggers of its tuple type, TypedDict type and declared
    /// metaclass, for those it has.
    pub special_type_triggers: Vec<String>,
    /// The full names of its MRO when it is a protocol.
    pub protocol_mro: Option<Vec<String>>,
    /// The type aliases the current target depends on.
    pub alias_deps: Vec<String>,
    /// Its members in definition order: the name, and for a variable
    /// whether it is initialized in the class body.
    pub members: Vec<(String, Option<bool>)>,
    /// Whether it has a base outside `builtins`, `typing` and `enum`.
    pub has_user_bases: bool,
    /// Its non-trivial bases.
    pub bases: Vec<BaseNames>,
}

pub open spec fn members_view(members: Seq<(String, Option<bool>)>) -> Seq<(Seq<char>, Option<bool>)> {
    members.map_values(|m: (String, Option<bool>)| (m.0@, m.1))
}

/// The dependencies of a class definition, in the order they are found:
/// base-type triggers invalidate the class's target; its special types'
/// triggers invalidate the target's trigger; a protocol's MRO (all but the
/// last entry) wildcards invalidate the target's trigger; the aliases the
/// current target uses; the member variables; then what the bases give.
pub open spec fn spec_type_info_deps(facts: TypeInfoFacts, logical: bool) -> Seq<
    (TriggerView, TargetView),
> {
    let target = facts.target@;
    names_view(facts.base_type_triggers@).map_values(
        |t: Seq<char>| (TriggerView::Made(t), TargetView::Plain(target)),
    ) + names_view(facts.special_type_triggers@).map_values(
        |t: Seq<char>| (TriggerView::Made(t), TargetView::TriggerOf(target)),
    ) + match facts.protocol_mro {
        Some(mro) => {
            let m = names_view(mro@);
            let shown = if m.len() == 0 {
                m
            } else {
                m.drop_last()
            };
            shown.map_values(|b: Seq<char>| (TriggerView::Wildcard(b), TargetView::TriggerOf(target)))
        },
        None => seq![],
    } + names_view(facts.alias_deps@).map_values(
        |a: Seq<char>| (TriggerView::Name(a), TargetView::Current),
    ) + spec_member_var_deps(
        facts.fullname@,
        members_view(facts.members@),
        facts.has_user_bases,
        bases_view(facts.bases@).map_values(|b: (Seq<char>, Seq<Seq<char>>)| b.0),
    ) + spec_base_deps(
        facts.fullname@,
        members_view(facts.members@).map_values(|m: (Seq<char>, Option<bool>)| m.0),
        bases_view(facts.bases@),
        logical,
    ).map_values(|d: NamedDependency| named_as_dep(d))
}

/// Append each made trigger in `items`, recorded under the trigger of
/// `target` (`under_trigger`) or under `target` as is.
fn push_triggers_made(out: &mut Vec<(Trigger, Target)>, items: &[String], target: &String, under_trigger: bool)
    ensures
        deps_view(final(out)@) == deps_view(old(out)@) + names_view(items@).map_values(
            |t: Seq<char>|
                (
                    TriggerView::Made(t),
                    if under_trigger {
                        TargetView::TriggerOf(target@)
                    } else {
                        TargetView::Plain(target@)
                    },
                ),
        ),
{
    let ghost start = deps_view(out@);
    let ghost tv = if under_trigger {
        TargetView::TriggerOf(target@)
    } else {
        TargetView::Plain(target@)
    };
    let mut i: usize = 0;
    while i < items.len()
        invariant
            i <= items@.len(),
            tv == (if under_trigger {
                TargetView::TriggerOf(target@)
            } else {
                TargetView::Plain(target@)
            }),
            deps_view(out@) =~= start + names_view(items@).take(i as int).map_values(
                |t: Seq<char>| (TriggerView::Made(t), tv),
            ),
        decreases items.len() - i,
    {
        let ghost before = deps_view(out@);
        let tgt = if under_trigger {
            Target::TriggerOf(target.clone())
        } else {
            Target::Plain(target.clone())
        };
        out.push((Trigger::Made(items[i].clone()), tgt));
        assert(deps_view(out@) =~= before.push((TriggerView::Made(items@[i as int]@), tv)));
        assert(names_view(items@).take(i + 1).map_values(|t: Seq<char>| (TriggerView::Made(t), tv))
            =~= names_view(items@).take(i as int).map_values(
            |t: Seq<char>| (TriggerView::Made(t), tv),
        ).push((TriggerView::Made(items@[i as int]@), tv)));
        i = i + 1;
    }
    assert(names_view(items@).take(i as int) =~= names_view(items@));
}

/// Append a wildcard dependency for each module in `mro` but the last,
/// recorded under the trigger of `target`.
fn push_protocol_wildcards(out: &mut Vec<(Trigger, Target)>, mro: &[String], target: &String)
    ensures
        deps_view(final(out)@) == deps_view(old(out)@) + {
            let m = names_view(mro@);
            let shown = if m.len() == 0 {
                m
            } else {
                m.drop_last()
            };
            shown.map_values(|b: Seq<char>| (TriggerView::Wildcard(b), TargetView::TriggerOf(target@)))
        },
{
    let ghost start = deps_view(out@);
    let ghost m = names_view(mro@);
    let n: usize = if mro.len() == 0 {
        0
    } else {
        mro.len() - 1
    };
    let ghost shown = if m.len() == 0 {
        m
    } else {
        m.drop_last()
    };
    assert(shown =~= m.take(n as int));
    let mut i: usize = 0;
    while i < n
        invariant
            i <= n <= mro@.len(),
            m == names_view(mro@),
            deps_view(out@) =~= start + m.take(i as int).map_values(
                |b: Seq<char>| (TriggerView::Wildcard(b), TargetView::TriggerOf(target@)),
            ),
        decreases n - i,
    {
        let ghost before = deps_view(out@);
        out.push((Trigger::Wildcard(mro[i].clone()), Target::TriggerOf(target.clone())));
        assert(deps_view(out@) =~= before.push(
            (TriggerView::Wildcard(m[i as int]), TargetView::TriggerOf(target@)),
        ));
        assert(m.take(i + 1).map_values(
            |b: Seq<char>| (TriggerView::Wildcard(b), TargetView::TriggerOf(target@)),
        ) =~= m.take(i as int).map_values(
            |b: Seq<char>| (TriggerView::Wildcard(b), TargetView::TriggerOf(target@)),
        ).push((TriggerView::Wildcard(m[i as int]), TargetView::TriggerOf(target@))));
        i = i + 1;
    }
}

/// Append a dependency on the trigger of each alias, under the current
/// target.
fn push_alias_deps(out: &mut Vec<(Trigger, Target)>, aliases: &[String])
    ensures
        deps_view(final(out)@) == deps_view(old(out)@) + names_view(aliases@).map_values(
            |a: Seq<char>| (TriggerView::Name(a), TargetView::Current),
        ),
{
    let ghost start = deps_view(out@);
    let ghost m = names_view(aliases@);
    let mut i: usize = 0;
    while i < aliases.len()
        invariant
            i <= aliases@.len(),
            m == names_view(aliases@),
            deps_view(out@) =~= start + m.take(i as int).map_values(
                |a: Seq<char>| (TriggerView::Name(a), TargetView::Current),
            ),
        decreases aliases.len() - i,
    {
        let ghost before = deps_view(out@);
        out.push((Trigger::Name(aliases[i].clone()), Target::Current));
        assert(deps_view(out@) =~= before.push((TriggerView::Name(m[i as int]), TargetView::Current)));
        assert(m.take(i + 1).map_values(|a: Seq<char>| (TriggerView::Name(a), TargetView::Current))
            =~= m.take(i as int).map_values(
            |a: Seq<char>| (TriggerView::Name(a), TargetView::Current),
        ).push((TriggerView::Name(m[i as int]), TargetView::Current)));
        i = i + 1;
    }
    assert(m.take(i as int) =~= m);
}

/// The dependencies on the type aliases a target uses: each alias's
/// trigger, under the current target.
pub fn alias_dependencies(aliases: &[String]) -> (r: Vec<(Trigger, Target)>)
    ensures
        deps_view(r@) == names_view(aliases@).map_values(
            |a: Seq<char>| (TriggerView::Name(a), TargetView::Current),
        ),
{
    let mut out: Vec<(Trigger, Target)> = Vec::new();
    assert(deps_view(out@) =~= seq![]);
    push_alias_deps(&mut out, aliases);
    assert(deps_view(out@) =~= names_view(aliases@).map_values(
        |a: Seq<char>| (TriggerView::Name(a), TargetView::Current),
    ));
    out
}

/// Append what the member variables give (see `spec_member_var_deps`).
fn push_member_var_deps(
    out: &mut Vec<(Trigger, Target)>,
    info: &str,
    members: &[(String, Option<bool>)],
    has_user_bases: bool,
    bases: &[BaseNames],
)
    ensures
        deps_view(final(out)@) == deps_view(old(out)@) + spec_member_var_deps(
            info@,
            members_view(members@),
            has_user_bases,
            bases_view(bases@).map_values(|b: (Seq<char>, Seq<Seq<char>>)| b.0),
        ),
{
    let ghost start = deps_view(out@);
    let ghost mv = members_view(members@);
    let ghost bv = bases_view(bases@).map_values(|b: (Seq<char>, Seq<Seq<char>>)| b.0);
    let mut i: usize = 0;
    while i < members.len()
        invariant
            i <= members@.len(),
            mv == members_view(members@),
            bv == bases_view(bases@).map_values(|b: (Seq<char>, Seq<Seq<char>>)| b.0),
            deps_view(out@) =~= start + spec_member_var_deps(info@, mv.take(i as int), has_user_bases, bv),
        decreases members.len() - i,
    {
        assert(mv.take(i + 1).drop_last() =~= mv.take(i as int));
        assert(mv.take(i + 1).last() == mv[i as int]);
        let (name, var) = &members[i];
        assert(mv[i as int] == (name@, *var));
        let ghost before = deps_view(out@);
        match var {
            None => {},
            Some(initialized) => {
                let own_name = make_dotted(info, name.as_str());
                let ghost own = if *initialized && has_user_bases {
                    seq![(TriggerView::Name(dotted(info@, name@)), TargetView::Current)]
                } else {
                    seq![]
                };
                if *initialized && has_user_bases {
                    out.push((Trigger::Name(own_name.clone()), Target::Current));
                }
                assert(deps_view(out@) =~= before + own);
                let ghost mid = deps_view(out@);
                let mut k: usize = 0;
                while k < bases.len()
                    invariant
                        k <= bases@.len(),
                        bv == bases_view(bases@).map_values(|b: (Seq<char>, Seq<Seq<char>>)| b.0),
                        own_name@ == dotted(info@, name@),
                        deps_view(out@) =~= mid + bv.take(k as int).map_values(
                            |b: Seq<char>|
                                (
                                    TriggerView::Name(dotted(b, name@)),
                                    TargetView::TriggerOf(dotted(info@, name@)),
                                ),
                        ),
                    decreases bases.len() - k,
                {
                    let ghost before_k = deps_view(out@);
                    assert(bv[k as int] == bases@[k as int].fullname@);
                    let trig = make_dotted(bases[k].fullname.as_str(), name.as_str());
                    out.push((Trigger::Name(trig), Target::TriggerOf(own_name.clone())));
                    assert(deps_view(out@) =~= before_k.push(
                        (
                            TriggerView::Name(dotted(bv[k as int], name@)),
                            TargetView::TriggerOf(dotted(info@, name@)),
                        ),
                    ));
                    assert(bv.take(k + 1).map_values(
                        |b: Seq<char>|
                            (
                                TriggerView::Name(dotted(b, name@)),
                                TargetView::TriggerOf(dotted(info@, name@)),
                            ),
                    ) =~= bv.take(k as int).map_values(
                        |b: Seq<char>|
                            (
                                TriggerView::Name(dotted(b, name@)),
                                TargetView::TriggerOf(dotted(info@, name@)),
                            ),
                    ).push(
                        (
                            TriggerView::Name(dotted(bv[k as int], name@)),
                            TargetView::TriggerOf(dotted(info@, name@)),
                        ),
                    ));
                    k = k + 1;
                }
                assert(bv.take(k as int) =~= bv);
            },
        }
        i = i + 1;
    }
    assert(mv.take(i as int) =~= mv);
}

/// Append the named dependencies as dependencies (see `named_as_dep`).
fn push_named_deps(out: &mut Vec<(Trigger, Target)>, named: Vec<(String, Option<String>)>)
    ensures
        deps_view(final(out)@) == deps_view(old(out)@) + named_deps_view(named@).map_values(
            |d: NamedDependency| named_as_dep(d),
        ),
{
    let ghost start = deps_view(out@);
    let ghost nv = named_deps_view(named@);
    let mut i: usize = 0;
    while i < named.len()
        invariant
            i <= named@.len(),
            nv == named_deps_view(named@),
            deps_view(out@) =~= start + nv.take(i as int).map_values(|d: NamedDependency| named_as_dep(d)),
        decreases named.len() - i,
    {
        let ghost before = deps_view(out@);
        let (n, t) = &named[i];
        assert(nv[i as int] == (n@, opt_view(*t)));
        let target = match t {
            Some(x) => Target::TriggerOf(x.clone()),
            None => Target::Current,
        };
        out.push((Trigger::Name(n.clone()), target));
        assert(deps_view(out@) =~= before.push(named_as_dep(nv[i as int])));
        assert(nv.take(i + 1).map_values(|d: NamedDependency| named_as_dep(d)) =~= nv.take(
            i as int,
        ).map_values(|d: NamedDependency| named_as_dep(d)).push(named_as_dep(nv[i as int])));
        i = i + 1;
    }
    assert(nv.take(i as int) =~= nv);
}

/// The dependencies of a class definition (see `spec_type_info_deps`).
pub fn type_info_dependencies(facts: &TypeInfoFacts, use_logical_deps: bool) -> (r: Vec<
    (Trigger, Target),
>)
    ensures
        deps_view(r@) == spec_type_info_deps(*facts, use_logical_deps),
{
    let mut out: Vec<(Trigger, Target)> = Vec::new();
    assert(deps_view(out@) =~= seq![]);
    push_triggers_made(&mut out, facts.base_type_triggers.as_slice(), &facts.target, false);
    push_triggers_made(&mut out, facts.special_type_triggers.as_slice(), &facts.target, true);
    let ghost after_special = deps_view(out@);
    match &facts.protocol_mro {
        Some(mro) => push_protocol_wildcards(&mut out, mro.as_slice(), &facts.target),
        None => {
            assert(deps_view(out@) =~= after_special + seq![]);
        },
    }
    push_alias_deps(&mut out, facts.alias_deps.as_slice());
    push_member_var_deps(
        &mut out,
        facts.fullname.as_str(),
        facts.members.as_slice(),
        facts.has_user_bases,
        facts.bases.as_slice(),
    );
    let mut member_names: Vec<String> = Vec::new();
    let mut i: usize = 0;
    while i < facts.members.len()
        invariant
            i <= facts.members@.len(),
            names_view(member_names@) =~= members_view(facts.members@).take(i as int).map_values(
                |m: (Seq<char>, Option<bool>)| m.0,
            ),
        decreases facts.members.len() - i,
    {
        let ghost before = names_view(member_names@);
        let name = facts.members[i].0.clone();
        assert(members_view(facts.members@)[i as int].0 == name@);
        member_names.push(name);
        assert(names_view(member_names@) =~= before.push(name@));
        assert(members_view(facts.members@).take(i + 1).map_values(
            |m: (Seq<char>, Option<bool>)| m.0,
        ) =~= members_view(facts.members@).take(i as int).map_values(
            |m: (Seq<char>, Option<bool>)| m.0,
        ).push(name@));
        i = i + 1;
        assert(names_view(member_names@) =~= members_view(facts.members@).take(i as int).map_values(
            |m: (Seq<char>, Option<bool>)| m.0,
        ));
    }
    assert(members_view(facts.members@).take(i as int) =~= members_view(facts.members@));
    let named = base_dependencies(
        facts.fullname.as_str(),
        member_names.as_slice(),
        facts.bases.as_slice(),
        use_logical_deps,
    );
    push_named_deps(&mut out, named);
    assert(deps_view(out@) =~= spec_type_info_deps(*facts, use_logical_deps));
    out
}

// ---------------------------------------------------------------------------
// Assignment targets
// ---------------------------------------------------------------------------

/// What an attribute assignment `obj.name = ...` with an unresolved member
/// kind looks at: the triggers of the assigned lvalue's type (`None` when
/// they cannot be computed) and the attribute triggers of `obj`'s type.
pub struct MemberAssignment {
    pub type_triggers: Option<Vec<String>>,
    pub attr_triggers: Vec<String>,
}

/// The plain facts about an assignment target.
pub enum Lvalue {
    /// `base[...]`, with the proper type of `base` when it has one.
    Index { base: Option<OperatorType> },
    /// A name; `global_or_member` when it is a module or class attribute,
    /// with the triggers of its type (`None` when they cannot be computed).
    Name { name: String, global_or_member: bool, triggers: Option<Vec<String>> },
    /// `obj.name`: `new_self_attribute` holds the class full name when this
    /// newly defines an attribute through `self` in a class with user bases;
    /// `unresolved` holds what is looked at when the member kind is unset
    /// and `obj` has a type.
    Member {
        name: String,
        new_self_attribute: Option<String>,
        unresolved: Option<MemberAssignment>,
    },
    /// A tuple of targets.
    Tuple { items: Vec<Lvalue> },
    /// `*target`.
    Star { expr: Box<Lvalue> },
    /// Any other target.
    Other,
}

/// Made triggers, each recorded under a target.
pub open spec fn made_under(triggers: Seq<Seq<char>>, target: TargetView) -> Seq<(TriggerView, TargetView)> {
    triggers.map_values(|t: Seq<char>| (TriggerView::Made(t), target))
}

/// Each type trigger recorded under each attribute trigger (attribute
/// triggers outermost).
pub open spec fn spec_cross_deps(attr: Seq<Seq<char>>, types: Seq<Seq<char>>) -> Seq<
    (TriggerView, TargetView),
>
    decreases attr.len(),
{
    if attr.len() == 0 {
        seq![]
    } else {
        spec_cross_deps(attr.drop_last(), types) + made_under(types, TargetView::Plain(attr.last()))
    }
}

/// Processing an assignment target: the dependencies recorded, and
/// whether it completed (`false`: the walk defers; what was recorded
/// before the deferral stays recorded). `base[...] = ...` depends on
/// `__setitem__` of the base's type; a module or class attribute's type
/// triggers invalidate the trigger of `full_target.name`; a new attribute
/// defined through `self` depends on `info.name`, and an attribute of
/// unresolved kind then records each type trigger under each attribute
/// trigger; tuple targets are processed item after item, stopping at the
/// first that defers; a starred target processes its operand.
pub open spec fn spec_lvalue_run(lv: Lvalue, full_target: Option<Seq<char>>) -> (
    Seq<(TriggerView, TargetView)>,
    bool,
)
    decreases lv, 1int,
{
    match lv {
        Lvalue::Index { base } => match base {
            Some(t) => (
                spec_operator_deps(t, "__setitem__"@).map_values(
                    |n: Seq<char>| (TriggerView::Name(n), TargetView::Current),
                ),
                true,
            ),
            None => (seq![], true),
        },
        Lvalue::Name { name, global_or_member, triggers } => if !global_or_member {
            (seq![], true)
        } else {
            match (triggers, full_target) {
                (Some(ts), Some(ft)) => (
                    made_under(names_view(ts@), TargetView::TriggerOf(dotted(ft, name@))),
                    true,
                ),
                _ => (seq![], false),
            }
        },
        Lvalue::Member { name, new_self_attribute, unresolved } => {
            let own = match new_self_attribute {
                Some(info) => seq![(TriggerView::Name(dotted(info@, name@)), TargetView::Current)],
                None => seq![],
            };
            match unresolved {
                None => (own, true),
                Some(m) => match m.type_triggers {
                    Some(ts) => (
                        own + spec_cross_deps(names_view(m.attr_triggers@), names_view(ts@)),
                        true,
                    ),
                    None => (own, false),
                },
            }
        },
        Lvalue::Tuple { items } => spec_lvalues_run(items@, full_target),
        Lvalue::Star { expr } => spec_lvalue_run(*expr, full_target),
        Lvalue::Other => (seq![], true),
    }
}

/// Processing targets in order, stopping at the first that defers.
pub open spec fn spec_lvalues_run(items: Seq<Lvalue>, full_target: Option<Seq<char>>) -> (
    Seq<(TriggerView, TargetView)>,
    bool,
)
    decreases items, 0int,
{
    if items.len() == 0 {
        (seq![], true)
    } else {
        let (a, ok) = spec_lvalues_run(items.drop_last(), full_target);
        if !ok {
            (a, false)
        } else {
            let (b, ok2) = spec_lvalue_run(items.last(), full_target);
            (a + b, ok2)
        }
    }
}

/// Once a prefix of the targets defers, so does the whole list, with what
/// the prefix recorded.
proof fn lemma_lvalues_run_prefix_failed(items: Seq<Lvalue>, k: int, full_target: Option<Seq<char>>)
    requires
        0 <= k <= items.len(),
        !spec_lvalues_run(items.take(k), full_target).1,
    ensures
        spec_lvalues_run(items, full_target) == spec_lvalues_run(items.take(k), full_target),
    decreases items.len(),
{
    if k < items.len() {
        assert(items.drop_last().take(k) =~= items.take(k));
        lemma_lvalues_run_prefix_failed(items.drop_last(), k, full_target);
    } else {
        assert(items.take(k) =~= items);
    }
}

/// Append made triggers, each under the given target.
fn push_made_under(out: &mut Vec<(Trigger, Target)>, triggers: &[String], target: &Target)
    ensures
        deps_view(final(out)@) == deps_view(old(out)@) + made_under(names_view(triggers@), target@),
{
    let ghost start = deps_view(out@);
    let ghost tv = names_view(triggers@);
    let mut i: usize = 0;
    while i < triggers.len()
        invariant
            i <= triggers@.len(),
            tv == names_view(triggers@),
            deps_view(out@) =~= start + made_under(tv.take(i as int), target@),
        decreases triggers.len() - i,
    {
        let ghost before = deps_view(out@);
        let tgt = match target {
            Target::Current => Target::Current,
            Target::TriggerOf(n) => Target::TriggerOf(n.clone()),
            Target::Plain(p) => Target::Plain(p.clone()),
        };
        out.push((Trigger::Made(triggers[i].clone()), tgt));
        assert(deps_view(out@) =~= before.push((TriggerView::Made(tv[i as int]), target@)));
        assert(made_under(tv.take(i + 1), target@) =~= made_under(tv.take(i as int), target@).push(
            (TriggerView::Made(tv[i as int]), target@),
        ));
        i = i + 1;
    }
    assert(tv.take(i as int) =~= tv);
}

/// Append the dependencies of an assignment target (see
/// `spec_lvalue_run`); `Err` when the walk defers, with what was recorded
/// before the deferral appended.
pub fn lvalue_dependencies(
    out: &mut Vec<(Trigger, Target)>,
    lv: &Lvalue,
    full_target: &Option<String>,
) -> (r: Result<(), DeferError>)
    ensures
        deps_view(final(out)@) == deps_view(old(out)@) + spec_lvalue_run(
            *lv,
            opt_view(*full_target),
        ).0,
        r is Ok <==> spec_lvalue_run(*lv, opt_view(*full_target)).1,
    decreases *lv, 1int,
{
    let ghost start = deps_view(out@);
    match lv {
        Lvalue::Index { base } => {
            match base {
                Some(t) => {
                    let names = operator_method_dependencies(t, "__setitem__");
                    let mut i: usize = 0;
                    while i < names.len()
                        invariant
                            i <= names@.len(),
                            deps_view(out@) =~= start + names_view(names@).take(i as int).map_values(
                                |n: Seq<char>| (TriggerView::Name(n), TargetView::Current),
                            ),
                        decreases names.len() - i,
                    {
                        let ghost before = deps_view(out@);
                        out.push((Trigger::Name(names[i].clone()), Target::Current));
                        assert(deps_view(out@) =~= before.push(
                            (TriggerView::Name(names@[i as int]@), TargetView::Current),
                        ));
                        assert(names_view(names@).take(i + 1).map_values(
                            |n: Seq<char>| (TriggerView::Name(n), TargetView::Current),
                        ) =~= names_view(names@).take(i as int).map_values(
                            |n: Seq<char>| (TriggerView::Name(n), TargetView::Current),
                        ).push((TriggerView::Name(names@[i as int]@), TargetView::Current)));
                        i = i + 1;
                    }
                    assert(names_view(names@).take(i as int) =~= names_view(names@));
                },
                None => {
                    assert(deps_view(out@) =~= start + seq![]);
                },
            }
            Ok(())
        },
        Lvalue::Name { name, global_or_member, triggers } => {
            assert(deps_view(out@) =~= start + seq![]);
            if !*global_or_member {
                return Ok(());
            }
            match (triggers, full_target) {
                (Some(ts), Some(ft)) => {
                    let target = Target::TriggerOf(make_dotted(ft.as_str(), name.as_str()));
                    push_made_under(out, ts.as_slice(), &target);
                    Ok(())
                },
                _ => Err(DeferError),
            }
        },
        Lvalue::Member { name, new_self_attribute, unresolved } => {
            let ghost own = match new_self_attribute {
                Some(info) => seq![(TriggerView::Name(dotted(info@, name@)), TargetView::Current)],
                None => seq![],
            };
            match new_self_attribute {
                Some(info) => {
                    out.push(
                        (Trigger::Name(make_dotted(info.as_str(), name.as_str())), Target::Current),
                    );
                },
                None => {},
            }
            assert(deps_view(out@) =~= start + own);
            match unresolved {
                None => {},
                Some(m) => match &m.type_triggers {
                    None => {
                        return Err(DeferError);
                    },
                    Some(ts) => {
                        let ghost mid = deps_view(out@);
                        let ghost av = names_view(m.attr_triggers@);
                        let mut i: usize = 0;
                        while i < m.attr_triggers.len()
                            invariant
                                i <= m.attr_triggers@.len(),
                                av == names_view(m.attr_triggers@),
                                deps_view(out@) =~= mid + spec_cross_deps(
                                    av.take(i as int),
                                    names_view(ts@),
                                ),
                            decreases m.attr_triggers.len() - i,
                        {
                            assert(av.take(i + 1).drop_last() =~= av.take(i as int));
                            assert(av.take(i + 1).last() == m.attr_triggers@[i as int]@);
                            let target = Target::Plain(m.attr_triggers[i].clone());
                            push_made_under(out, ts.as_slice(), &target);
                            i = i + 1;
                        }
                        assert(av.take(i as int) =~= av);
                    },
                },
            }
            Ok(())
        },
        Lvalue::Tuple { items } => {
            let mut i: usize = 0;
            assert(items@.take(0) =~= seq![]);
            assert(deps_view(out@) =~= start + seq![]);
            while i < items.len()
                invariant
                    i <= items@.len(),
                    *lv == (Lvalue::Tuple { items: *items }),
                    start == deps_view(old(out)@),
                    spec_lvalues_run(items@.take(i as int), opt_view(*full_target)).1,
                    deps_view(out@) =~= start + spec_lvalues_run(
                        items@.take(i as int),
                        opt_view(*full_target),
                    ).0,
                decreases items.len() - i,
            {
                proof {
                    assert((*lv)->items == *items);
                    assert(decreases_to!(*lv => (*lv)->items));
                    assert(decreases_to!(*items => items@));
                    assert(decreases_to!(items@ => items@[i as int]));
                }
                assert(items@.take(i + 1).drop_last() =~= items@.take(i as int));
                assert(items@.take(i + 1).last() == items@[i as int]);
                let res = lvalue_dependencies(out, &items[i], full_target);
                assert(deps_view(out@) =~= start + spec_lvalues_run(
                    items@.take(i + 1),
                    opt_view(*full_target),
                ).0);
                match res {
                    Ok(()) => {},
                    Err(e) => {
                        proof {
                            assert(!spec_lvalues_run(items@.take(i + 1), opt_view(*full_target)).1);
                            lemma_lvalues_run_prefix_failed(items@, i + 1, opt_view(*full_target));
                        }
                        return Err(e);
                    },
                }
                i = i + 1;
            }
            assert(items@.take(i as int) =~= items@);
            Ok(())
        },
        Lvalue::Star { expr } => {
            proof {
                assert((*lv)->expr == *expr);
                assert(decreases_to!(*lv => (*lv)->expr));
            }
            lvalue_dependencies(out, expr, full_target)
        },
        Lvalue::Other => {
            assert(deps_view(out@) =~= start + seq![]);
            Ok(())
        },
    }
}

/// Whether a member name is private (starts with `_`).
pub open spec fn is_private_name(name: Seq<char>) -> bool {
    name.len() > 0 && name[0] == '_'
}

/// The dependencies of a named tuple definition with the given prefix
/// (`full_target.Name`): each public member with a type has its type
/// triggers recorded under the current target, under the trigger of the
/// prefix, and under the trigger of `prefix.member`.
pub open spec fn spec_named_tuple_deps(
    prefix: Seq<char>,
    members: Seq<(Seq<char>, Option<Seq<Seq<char>>>)>,
) -> Seq<(TriggerView, TargetView)>
    decreases members.len(),
{
    if members.len() == 0 {
        seq![]
    } else {
        let prev = spec_named_tuple_deps(prefix, members.drop_last());
        let (name, typ) = members.last();
        match typ {
            Some(ts) => if is_private_name(name) {
                prev
            } else {
                prev + made_under(ts, TargetView::Current) + made_under(
                    ts,
                    TargetView::TriggerOf(prefix),
                ) + made_under(ts, TargetView::TriggerOf(dotted(prefix, name)))
            },
            None => prev,
        }
    }
}

pub open spec fn typed_members_view(members: Seq<(String, Option<Vec<String>>)>) -> Seq<
    (Seq<char>, Option<Seq<Seq<char>>>),
> {
    members.map_values(
        |m: (String, Option<Vec<String>>)|
            (
                m.0@,
                match m.1 {
                    Some(ts) => Some(names_view(ts@)),
                    None => None,
                },
            ),
    )
}

/// See `spec_named_tuple_deps`; each member comes with the triggers of its
/// type when it is a variable with a type.
pub fn named_tuple_dependencies(prefix: &str, members: &[(String, Option<Vec<String>>)]) -> (r: Vec<
    (Trigger, Target),
>)
    ensures
        deps_view(r@) == spec_named_tuple_deps(prefix@, typed_members_view(members@)),
{
    let ghost mv = typed_members_view(members@);
    let mut out: Vec<(Trigger, Target)> = Vec::new();
    let mut i: usize = 0;
    while i < members.len()
        invariant
            i <= members@.len(),
            mv == typed_members_view(members@),
            deps_view(out@) =~= spec_named_tuple_deps(prefix@, mv.take(i as int)),
        decreases members.len() - i,
    {
        assert(mv.take(i + 1).drop_last() =~= mv.take(i as int));
        assert(mv.take(i + 1).last() == mv[i as int]);
        let (name, typ) = &members[i];
        match typ {
            Some(ts) => {
                let private = if name.as_str().unicode_len() > 0 {
                    name.as_str().get_char(0) == '_'
                } else {
                    false
                };
                if !private {
                    push_made_under(&mut out, ts.as_slice(), &Target::Current);
                    push_made_under(&mut out, ts.as_slice(), &Target::TriggerOf(prefix.to_owned()));
                    push_made_under(
                        &mut out,
                        ts.as_slice(),
                        &Target::TriggerOf(make_dotted(prefix, name.as_str())),
                    );
                }
            },
            None => {},
        }
        i = i + 1;
    }
    assert(mv.take(i as int) =~= mv);
    out
}

/// With logical dependencies, an assignment from a constructor call makes
/// the constructor's trigger invalidate the trigger of each newly defined
/// target (each given with its full name and whether it is a local), up to
/// the first local target, where the walk stops.
pub open spec fn spec_constructor_deps(constructor: Seq<char>, targets: Seq<(Seq<char>, bool)>) -> Seq<
    (TriggerView, TargetView),
>
    decreases targets.len(),
{
    if targets.len() == 0 || targets[0].1 {
        seq![]
    } else {
        seq![(TriggerView::Name(constructor), TargetView::TriggerOf(targets[0].0))]
            + spec_constructor_deps(constructor, targets.drop_first())
    }
}

/// See `spec_constructor_deps`; the targets are the new definitions among
/// the lvalues, in order.
pub fn constructor_dependencies(constructor: &String, targets: &[(String, bool)]) -> (r: Vec<
    (Trigger, Target),
>)
    ensures
        deps_view(r@) == spec_constructor_deps(constructor@, defs_view(targets@)),
{
    let ghost all = defs_view(targets@);
    let mut out: Vec<(Trigger, Target)> = Vec::new();
    let mut i: usize = 0;
    assert(all.skip(0) =~= all);
    assert(deps_view(out@) + spec_constructor_deps(constructor@, all) =~= spec_constructor_deps(
        constructor@,
        all,
    ));
    while i < targets.len()
        invariant
            i <= targets@.len(),
            all == defs_view(targets@),
            spec_constructor_deps(constructor@, all) == deps_view(out@) + spec_constructor_deps(
                constructor@,
                all.skip(i as int),
            ),
        decreases targets.len() - i,
    {
        let ghost rest = all.skip(i as int);
        let (full, local) = &targets[i];
        assert(rest[0] == (full@, *local));
        if *local {
            assert(deps_view(out@) + seq![] =~= deps_view(out@));
            return out;
        }
        assert(rest.drop_first() =~= all.skip(i + 1));
        let ghost before = deps_view(out@);
        out.push((Trigger::Name(constructor.clone()), Target::TriggerOf(full.clone())));
        assert(deps_view(out@) =~= before.push(
            (TriggerView::Name(constructor@), TargetView::TriggerOf(full@)),
        ));
        assert(before + (seq![(TriggerView::Name(constructor@), TargetView::TriggerOf(full@))]
            + spec_constructor_deps(constructor@, all.skip(i + 1))) =~= deps_view(out@)
            + spec_constructor_deps(constructor@, all.skip(i + 1)));
        i = i + 1;
    }
    assert(all.skip(i as int) =~= seq![]);
    assert(deps_view(out@) + seq![] =~= deps_view(out@));
    out
}

// ---------------------------------------------------------------------------
// Assignment statements
// ---------------------------------------------------------------------------

/// An assignment target, with the `__iter__` attribute triggers of the type
/// of the expression after it (the next target, or the right-hand side
/// after the last target); empty when that expression has no type. They
/// count only when the target is a tuple, which unpacks that expression.
pub struct AssignedTarget {
    pub lvalue: Lvalue,
    pub next_iter_triggers: Vec<String>,
}

/// What kind of assignment a statement is, with the plain facts each kind
/// looks at.
pub enum AssignmentKind {
    /// `T = TypeVar(...)`: the triggers of its upper bound and of each of
    /// its value restrictions.
    TypeVar { fullname: String, bound_triggers: Vec<String>, value_triggers: Vec<Vec<String>> },
    /// `N = NamedTuple(...)`: the class name and its members, each with the
    /// triggers of its type when it is a variable with a type.
    NamedTuple { name: String, members: Vec<(String, Option<Vec<String>>)> },
    /// `D = TypedDict(...)`: the class name and the triggers of its typed
    /// dict type (`None` when that type is not known yet).
    TypedDict { name: String, typeddict_triggers: Option<Vec<String>> },
    /// `E = Enum(...)`: each member, with the triggers of its type when it
    /// is a variable with a type.
    Enum { members: Vec<Option<Vec<String>>> },
    /// A type alias definition: for each target whether it is a plain name;
    /// the full name of the class when the alias's proper type is a type
    /// object; the triggers of the alias target when the right-hand side is
    /// an analyzed type alias expression; else the triggers of the alias's
    /// proper type when it has one.
    Alias {
        lvalue_is_name: Vec<bool>,
        type_object: Option<String>,
        alias_target_triggers: Option<Vec<String>>,
        proper_triggers: Option<Vec<String>>,
    },
    /// Any other assignment: its targets in order, and the triggers of its
    /// declared type when it has one.
    Plain { targets: Vec<AssignedTarget>, declared_type_triggers: Option<Vec<String>> },
}

/// The right-hand side is a call of a callee with a full name and the
/// statement has no written type: the name the call resolves to (for a
/// class, the full name of its `__init__` when that is a function, else
/// `None`; for anything else, the callee's full name), and the targets that
/// newly define a name with a full name, each with that name and whether it
/// is local.
pub struct ConstructorCall {
    pub constructor: Option<String>,
    pub new_definitions: Vec<(String, bool)>,
}

/// The plain facts about an assignment statement.
pub struct AssignmentFacts {
    pub kind: AssignmentKind,
    pub call: Option<ConstructorCall>,
}

/// Groups of made triggers, each present group recorded under a target, in
/// order.
pub open spec fn spec_groups_under(groups: Seq<Option<Seq<Seq<char>>>>, target: TargetView) -> Seq<
    (TriggerView, TargetView),
>
    decreases groups.len(),
{
    if groups.len() == 0 {
        seq![]
    } else {
        spec_groups_under(groups.drop_last(), target) + match groups.last() {
            Some(ts) => made_under(ts, target),
            None => seq![],
        }
    }
}

pub open spec fn all_groups_view(groups: Seq<Vec<String>>) -> Seq<Option<Seq<Seq<char>>>> {
    groups.map_values(|g: Vec<String>| Some(names_view(g@)))
}

pub open spec fn opt_groups_view(groups: Seq<Option<Vec<String>>>) -> Seq<Option<Seq<Seq<char>>>> {
    groups.map_values(
        |g: Option<Vec<String>>|
            match g {
                Some(ts) => Some(names_view(ts@)),
                None => None,
            },
    )
}

/// The `__iter__` triggers that count: those after a tuple target.
pub open spec fn unpack_groups_view(targets: Seq<AssignedTarget>) -> Seq<Option<Seq<Seq<char>>>> {
    targets.map_values(
        |t: AssignedTarget|
            if t.lvalue is Tuple {
                Some(names_view(t.next_iter_triggers@))
            } else {
                None
            },
    )
}

pub open spec fn lvalues_of(targets: Seq<AssignedTarget>) -> Seq<Lvalue> {
    targets.map_values(|t: AssignedTarget| t.lvalue)
}

/// Made triggers, when given, under a target.
pub open spec fn opt_made_under(triggers: Option<Vec<String>>, target: TargetView) -> Seq<
    (TriggerView, TargetView),
> {
    match triggers {
        Some(ts) => made_under(names_view(ts@), target),
        None => seq![],
    }
}

/// What a type alias definition adds (see `spec_assignment_kind_deps`).
pub open spec fn spec_alias_deps(
    lvalue_is_name: Seq<bool>,
    type_object: Option<Seq<char>>,
    alias_target_triggers: Option<Vec<String>>,
    proper_triggers: Option<Vec<String>>,
) -> Option<Seq<(TriggerView, TargetView)>> {
    if lvalue_is_name.len() != 1 || !lvalue_is_name[0] {
        None
    } else {
        let own = match type_object {
            Some(c) => seq![
                (TriggerView::Name(dotted(c, "__init__"@)), TargetView::Current),
                (TriggerView::Name(dotted(c, "__new__"@)), TargetView::Current),
            ],
            None => seq![],
        };
        let rest = match alias_target_triggers {
            Some(ts) => made_under(names_view(ts@), TargetView::Current),
            None => opt_made_under(proper_triggers, TargetView::Current),
        };
        Some(own + rest)
    }
}

/// What an assignment statement's own kind adds (`None`: the walk
/// defers). A type variable's bound and value triggers invalidate the
/// trigger of its full name; a named tuple's members go as in
/// `spec_named_tuple_deps` under the prefix `full_target.Name`; a typed
/// dict's type triggers invalidate the trigger of `full_target.Name` (and
/// it defers while its type is unknown); an enum's member types invalidate
/// the current target; a type alias defers unless it has exactly one
/// target, a name, makes `C.__init__` and `C.__new__` invalidate the
/// current target when the alias is of a class `C`, and then records the
/// alias target's triggers or else its proper type's; any other assignment
/// processes its targets in order (deferring when one does), then records
/// the `__iter__` triggers after each tuple target and the declared type's
/// triggers, all under the current target.
pub open spec fn spec_assignment_kind_deps(kind: AssignmentKind, scope: ScopeView) -> Option<
    Seq<(TriggerView, TargetView)>,
> {
    match kind {
        AssignmentKind::TypeVar { fullname, bound_triggers, value_triggers } => Some(
            made_under(names_view(bound_triggers@), TargetView::TriggerOf(fullname@))
                + spec_groups_under(
                all_groups_view(value_triggers@),
                TargetView::TriggerOf(fullname@),
            ),
        ),
        AssignmentKind::NamedTuple { name, members } => match spec_current_full_target(scope) {
            Some(ft) => Some(spec_named_tuple_deps(dotted(ft, name@), typed_members_view(members@))),
            None => None,
        },
        AssignmentKind::TypedDict { name, typeddict_triggers } => match (
            typeddict_triggers,
            spec_current_full_target(scope),
        ) {
            (Some(ts), Some(ft)) => Some(
                made_under(names_view(ts@), TargetView::TriggerOf(dotted(ft, name@))),
            ),
            _ => None,
        },
        AssignmentKind::Enum { members } => Some(
            spec_groups_under(opt_groups_view(members@), TargetView::Current),
        ),
        AssignmentKind::Alias {
            lvalue_is_name,
            type_object,
            alias_target_triggers,
            proper_triggers,
        } => spec_alias_deps(
            lvalue_is_name@,
            opt_view(type_object),
            alias_target_triggers,
            proper_triggers,
        ),
        AssignmentKind::Plain { targets, declared_type_triggers } => {
            let run = spec_lvalues_run(lvalues_of(targets@), spec_current_full_target(scope));
            if run.1 {
                Some(
                    run.0 + spec_groups_under(unpack_groups_view(targets@), TargetView::Current)
                        + opt_made_under(declared_type_triggers, TargetView::Current),
                )
            } else {
                None
            }
        },
    }
}

/// With logical dependencies, what an assignment from a constructor call
/// adds (see `spec_constructor_deps`), when the constructed full name is
/// known and not empty.
pub open spec fn spec_logical_tail(call: Option<ConstructorCall>, logical: bool) -> Seq<
    (TriggerView, TargetView),
> {
    match call {
        Some(c) => if !logical {
            seq![]
        } else {
            match c.constructor {
                Some(n) => if n@.len() > 0 {
                    spec_constructor_deps(n@, defs_view(c.new_definitions@))
                } else {
                    seq![]
                },
                None => seq![],
            }
        },
        None => seq![],
    }
}

/// What an assignment statement adds: its kind's dependencies, then the
/// logical tail. `None` when the walk defers.
pub open spec fn spec_assignment_deps(facts: AssignmentFacts, scope: ScopeView, logical: bool) -> Option<
    Seq<(TriggerView, TargetView)>,
> {
    match spec_assignment_kind_deps(facts.kind, scope) {
        Some(d) => Some(d + spec_logical_tail(facts.call, logical)),
        None => None,
    }
}

/// Append groups of made triggers, each under the target.
fn push_all_groups(out: &mut Vec<(Trigger, Target)>, groups: &[Vec<String>], target: &Target)
    ensures
        deps_view(final(out)@) == deps_view(old(out)@) + spec_groups_under(
            all_groups_view(groups@),
            target@,
        ),
{
    let ghost start = deps_view(out@);
    let ghost gv = all_groups_view(groups@);
    let mut i: usize = 0;
    while i < groups.len()
        invariant
            i <= groups@.len(),
            gv == all_groups_view(groups@),
            deps_view(out@) =~= start + spec_groups_under(gv.take(i as int), target@),
        decreases groups.len() - i,
    {
        assert(gv.take(i + 1).drop_last() =~= gv.take(i as int));
        assert(gv.take(i + 1).last() == Some(names_view(groups@[i as int]@)));
        push_made_under(out, groups[i].as_slice(), target);
        i = i + 1;
    }
    assert(gv.take(i as int) =~= gv);
}

/// Append the present groups of made triggers, each under the target.
fn push_opt_groups(out: &mut Vec<(Trigger, Target)>, groups: &[Option<Vec<String>>], target: &Target)
    ensures
        deps_view(final(out)@) == deps_view(old(out)@) + spec_groups_under(
            opt_groups_view(groups@),
            target@,
        ),
{
    let ghost start = deps_view(out@);
    let ghost gv = opt_groups_view(groups@);
    let mut i: usize = 0;
    while i < groups.len()
        invariant
            i <= groups@.len(),
            gv == opt_groups_view(groups@),
            deps_view(out@) =~= start + spec_groups_under(gv.take(i as int), target@),
        decreases groups.len() - i,
    {
        assert(gv.take(i + 1).drop_last() =~= gv.take(i as int));
        match &groups[i] {
            Some(ts) => {
                assert(gv.take(i + 1).last() == Some(names_view(ts@)));
                push_made_under(out, ts.as_slice(), target);
            },
            None => {
                assert(gv.take(i + 1).last() is None);
                assert(deps_view(out@) =~= deps_view(out@) + seq![]);
            },
        }
        i = i + 1;
    }
    assert(gv.take(i as int) =~= gv);
}

/// Append made triggers under the target when they are given.
fn push_opt_made_under(out: &mut Vec<(Trigger, Target)>, triggers: &Option<Vec<String>>, target: &Target)
    ensures
        deps_view(final(out)@) == deps_view(old(out)@) + opt_made_under(*triggers, target@),
{
    match triggers {
        Some(ts) => push_made_under(out, ts.as_slice(), target),
        None => {
            assert(deps_view(out@) =~= deps_view(out@) + seq![]);
        },
    }
}

/// The dependencies of an assignment that is not a special form (see
/// `spec_assignment_kind_deps`).
fn plain_assignment_dependencies(
    targets: &Vec<AssignedTarget>,
    declared_type_triggers: &Option<Vec<String>>,
    scope: &Scope,
) -> (r: Result<Vec<(Trigger, Target)>, DeferError>)
    ensures
        match spec_assignment_kind_deps(
            AssignmentKind::Plain {
                targets: *targets,
                declared_type_triggers: *declared_type_triggers,
            },
            scope@,
        ) {
            Some(d) => r matches Ok(v) && deps_view(v@) == d,
            None => r is Err,
        },
{
    let full_target = scope.current_full_target();
    let ghost ft = opt_view(full_target);
    let ghost lvs = lvalues_of(targets@);
    let mut out: Vec<(Trigger, Target)> = Vec::new();
    let mut i: usize = 0;
    assert(lvs.take(0) =~= seq![]);
    assert(deps_view(out@) =~= seq![]);
    while i < targets.len()
        invariant
            i <= targets@.len(),
            lvs == lvalues_of(targets@),
            ft == opt_view(full_target),
            ft == spec_current_full_target(scope@),
            spec_lvalues_run(lvs.take(i as int), ft).1,
            deps_view(out@) =~= spec_lvalues_run(lvs.take(i as int), ft).0,
        decreases targets.len() - i,
    {
        assert(lvs.take(i + 1).drop_last() =~= lvs.take(i as int));
        assert(lvs.take(i + 1).last() == targets@[i as int].lvalue);
        let res = lvalue_dependencies(&mut out, &targets[i].lvalue, &full_target);
        match res {
            Ok(()) => {},
            Err(e) => {
                proof {
                    assert(!spec_lvalues_run(lvs.take(i + 1), ft).1);
                    lemma_lvalues_run_prefix_failed(lvs, i + 1, ft);
                }
                return Err(e);
            },
        }
        i = i + 1;
    }
    assert(lvs.take(i as int) =~= lvs);
    let ghost lvalue_part = deps_view(out@);
    let ghost uv = unpack_groups_view(targets@);
    let mut j: usize = 0;
    while j < targets.len()
        invariant
            j <= targets@.len(),
            uv == unpack_groups_view(targets@),
            deps_view(out@) =~= lvalue_part + spec_groups_under(uv.take(j as int), TargetView::Current),
        decreases targets.len() - j,
    {
        assert(uv.take(j + 1).drop_last() =~= uv.take(j as int));
        let t = &targets[j];
        match &t.lvalue {
            Lvalue::Tuple { .. } => {
                assert(uv.take(j + 1).last() == Some(names_view(t.next_iter_triggers@)));
                push_made_under(&mut out, t.next_iter_triggers.as_slice(), &Target::Current);
            },
            _ => {
                assert(uv.take(j + 1).last() is None);
                assert(deps_view(out@) =~= deps_view(out@) + seq![]);
            },
        }
        j = j + 1;
    }
    assert(uv.take(j as int) =~= uv);
    push_opt_made_under(&mut out, declared_type_triggers, &Target::Current);
    Ok(out)
}

/// The dependencies of a type alias definition (see `spec_alias_deps`).
fn alias_assignment_dependencies(
    lvalue_is_name: &Vec<bool>,
    type_object: &Option<String>,
    alias_target_triggers: &Option<Vec<String>>,
    proper_triggers: &Option<Vec<String>>,
) -> (r: Result<Vec<(Trigger, Target)>, DeferError>)
    ensures
        match spec_alias_deps(
            lvalue_is_name@,
            opt_view(*type_object),
            *alias_target_triggers,
            *proper_triggers,
        ) {
            Some(d) => r matches Ok(v) && deps_view(v@) == d,
            None => r is Err,
        },
{
    if lvalue_is_name.len() != 1 || !lvalue_is_name[0] {
        return Err(DeferError);
    }
    let mut out: Vec<(Trigger, Target)> = Vec::new();
    match type_object {
        Some(c) => {
            out.push((Trigger::Name(make_dotted(c.as_str(), "__init__")), Target::Current));
            out.push((Trigger::Name(make_dotted(c.as_str(), "__new__")), Target::Current));
        },
        None => {},
    }
    match alias_target_triggers {
        Some(ts) => push_made_under(&mut out, ts.as_slice(), &Target::Current),
        None => push_opt_made_under(&mut out, proper_triggers, &Target::Current),
    }
    Ok(out)
}

/// The dependencies of an assignment's kind (see
/// `spec_assignment_kind_deps`); `Err` when the walk defers.
fn assignment_kind_dependencies(kind: &AssignmentKind, scope: &Scope) -> (r: Result<
    Vec<(Trigger, Target)>,
    DeferError,
>)
    ensures
        match spec_assignment_kind_deps(*kind, scope@) {
            Some(d) => r matches Ok(v) && deps_view(v@) == d,
            None => r is Err,
        },
{
    match kind {
        AssignmentKind::TypeVar { fullname, bound_triggers, value_triggers } => {
            let target = Target::TriggerOf(fullname.clone());
            let mut out: Vec<(Trigger, Target)> = Vec::new();
            assert(deps_view(out@) =~= seq![]);
            push_made_under(&mut out, bound_triggers.as_slice(), &target);
            push_all_groups(&mut out, value_triggers.as_slice(), &target);
            Ok(out)
        },
        AssignmentKind::NamedTuple { name, members } => match scope.current_full_target() {
            Some(ft) => {
                let prefix = make_dotted(ft.as_str(), name.as_str());
                Ok(named_tuple_dependencies(prefix.as_str(), members.as_slice()))
            },
            None => Err(DeferError),
        },
        AssignmentKind::TypedDict { name, typeddict_triggers } => match typeddict_triggers {
            None => Err(DeferError),
            Some(ts) => match scope.current_full_target() {
                Some(ft) => {
                    let mut out: Vec<(Trigger, Target)> = Vec::new();
                    assert(deps_view(out@) =~= seq![]);
                    let target = Target::TriggerOf(make_dotted(ft.as_str(), name.as_str()));
                    push_made_under(&mut out, ts.as_slice(), &target);
                    Ok(out)
                },
                None => Err(DeferError),
            },
        },
        AssignmentKind::Enum { members } => {
            let mut out: Vec<(Trigger, Target)> = Vec::new();
            assert(deps_view(out@) =~= seq![]);
            push_opt_groups(&mut out, members.as_slice(), &Target::Current);
            Ok(out)
        },
        AssignmentKind::Alias {
            lvalue_is_name,
            type_object,
            alias_target_triggers,
            proper_triggers,
        } => alias_assignment_dependencies(
            lvalue_is_name,
            type_object,
            alias_target_triggers,
            proper_triggers,
        ),
        AssignmentKind::Plain { targets, declared_type_triggers } => plain_assignment_dependencies(
            targets,
            declared_type_triggers,
            scope,
        ),
    }
}

/// The dependencies an assignment statement records (see
/// `spec_assignment_deps`): those of its kind, then, with logical
/// dependencies, those of the constructor call on its right-hand side.
/// `Err` when the walk defers. Walking the statement's subexpressions (the
/// right-hand side and the targets, or a type variable call's arguments)
/// is the caller's part.
pub fn assignment_dependencies(facts: &AssignmentFacts, scope: &Scope, use_logical_deps: bool) -> (r:
    Result<Vec<(Trigger, Target)>, DeferError>)
    ensures
        match spec_assignment_deps(*facts, scope@, use_logical_deps) {
            Some(d) => r matches Ok(v) && deps_view(v@) == d,
            None => r is Err,
        },
{
    let mut out = match assignment_kind_dependencies(&facts.kind, scope) {
        Ok(v) => v,
        Err(e) => return Err(e),
    };
    let ghost kind_part = deps_view(out@);
    match &facts.call {
        Some(c) => {
            if use_logical_deps {
                match &c.constructor {
                    Some(n) => {
                        if n.as_str().unicode_len() > 0 {
                            let mut tail = constructor_dependencies(n, c.new_definitions.as_slice());
                            let ghost tv = tail@;
                            out.append(&mut tail);
                            assert(deps_view(out@) =~= kind_part + deps_view(tv));
                            return Ok(out);
                        }
                    },
                    None => {},
                }
            }
        },
        None => {},
    }
    assert(deps_view(out@) =~= kind_part + seq![]);
    Ok(out)
}

// ---------------------------------------------------------------------------
// Definitions and references
// ---------------------------------------------------------------------------

/// A function's signature: each trigger of its (bound) type invalidates
/// both the current target and the trigger of the function's target.
pub open spec fn spec_signature_deps(triggers: Seq<Seq<char>>, target: Seq<char>) -> Seq<
    (TriggerView, TargetView),
>
    decreases triggers.len(),
{
    if triggers.len() == 0 {
        seq![]
    } else {
        spec_signature_deps(triggers.drop_last(), target) + seq![
            (TriggerView::Made(triggers.last()), TargetView::Current),
            (TriggerView::Made(triggers.last()), TargetView::TriggerOf(target)),
        ]
    }
}

/// See `spec_signature_deps`.
pub fn signature_dependencies(triggers: &[String], target: &String) -> (r: Vec<(Trigger, Target)>)
    ensures
        deps_view(r@) == spec_signature_deps(names_view(triggers@), target@),
{
    let ghost tv = names_view(triggers@);
    let mut out: Vec<(Trigger, Target)> = Vec::new();
    let mut i: usize = 0;
    while i < triggers.len()
        invariant
            i <= triggers@.len(),
            tv == names_view(triggers@),
            deps_view(out@) =~= spec_signature_deps(tv.take(i as int), target@),
        decreases triggers.len() - i,
    {
        assert(tv.take(i + 1).drop_last() =~= tv.take(i as int));
        assert(tv.take(i + 1).last() == triggers@[i as int]@);
        let ghost before = deps_view(out@);
        out.push((Trigger::Made(triggers[i].clone()), Target::Current));
        out.push((Trigger::Made(triggers[i].clone()), Target::TriggerOf(target.clone())));
        assert(deps_view(out@) =~= before + seq![
            (TriggerView::Made(tv[i as int]), TargetView::Current),
            (TriggerView::Made(tv[i as int]), TargetView::TriggerOf(target@)),
        ]);
        i = i + 1;
    }
    assert(tv.take(i as int) =~= tv);
    out
}

/// A class definition: the class's trigger invalidates its target, and so
/// does the trigger of each of its type variables.
pub open spec fn spec_class_def_deps(target: Seq<char>, type_vars: Seq<Seq<char>>) -> Seq<
    (TriggerView, TargetView),
> {
    seq![(TriggerView::Name(target), TargetView::Plain(target))] + type_vars.map_values(
        |v: Seq<char>| (TriggerView::Name(v), TargetView::Plain(target)),
    )
}

/// See `spec_class_def_deps`.
pub fn class_def_dependencies(target: &String, type_vars: &[String]) -> (r: Vec<(Trigger, Target)>)
    ensures
        deps_view(r@) == spec_class_def_deps(target@, names_view(type_vars@)),
{
    let ghost tv = names_view(type_vars@);
    let mut out: Vec<(Trigger, Target)> = Vec::new();
    out.push((Trigger::Name(target.clone()), Target::Plain(target.clone())));
    let mut i: usize = 0;
    while i < type_vars.len()
        invariant
            i <= type_vars@.len(),
            tv == names_view(type_vars@),
            deps_view(out@) =~= seq![(TriggerView::Name(target@), TargetView::Plain(target@))]
                + tv.take(i as int).map_values(
                |v: Seq<char>| (TriggerView::Name(v), TargetView::Plain(target@)),
            ),
        decreases type_vars.len() - i,
    {
        let ghost before = deps_view(out@);
        out.push((Trigger::Name(type_vars[i].clone()), Target::Plain(target.clone())));
        assert(deps_view(out@) =~= before.push(
            (TriggerView::Name(tv[i as int]), TargetView::Plain(target@)),
        ));
        assert(tv.take(i + 1).map_values(
            |v: Seq<char>| (TriggerView::Name(v), TargetView::Plain(target@)),
        ) =~= tv.take(i as int).map_values(
            |v: Seq<char>| (TriggerView::Name(v), TargetView::Plain(target@)),
        ).push((TriggerView::Name(tv[i as int]), TargetView::Plain(target@))));
        i = i + 1;
    }
    assert(tv.take(i as int) =~= tv);
    out
}

/// A decorated function. Without logical dependencies, a module- or
/// class-level function that is not an overload depends on its own trigger.
/// With them, each decorator with a name (its own, or its callee's when it
/// is a call) makes that name's trigger invalidate the function's trigger.
pub open spec fn spec_decorator_deps(
    func_fullname: Seq<char>,
    is_overload: bool,
    in_function: bool,
    decorator_names: Seq<Option<Seq<char>>>,
    logical: bool,
) -> Seq<(TriggerView, TargetView)>
    decreases decorator_names.len(),
{
    if !logical {
        if !is_overload && !in_function {
            seq![(TriggerView::Name(func_fullname), TargetView::Current)]
        } else {
            seq![]
        }
    } else if decorator_names.len() == 0 {
        seq![]
    } else {
        let prev = spec_decorator_deps(
            func_fullname,
            is_overload,
            in_function,
            decorator_names.drop_last(),
            logical,
        );
        match decorator_names.last() {
            Some(n) => prev.push((TriggerView::Name(n), TargetView::TriggerOf(func_fullname))),
            None => prev,
        }
    }
}

pub open spec fn opt_names_view(names: Seq<Option<String>>) -> Seq<Option<Seq<char>>> {
    names.map_values(|n: Option<String>| opt_view(n))
}

/// See `spec_decorator_deps`.
pub fn decorator_dependencies(
    func_fullname: &String,
    is_overload: bool,
    in_function: bool,
    decorator_names: &[Option<String>],
    use_logical_deps: bool,
) -> (r: Vec<(Trigger, Target)>)
    ensures
        deps_view(r@) == spec_decorator_deps(
            func_fullname@,
            is_overload,
            in_function,
            opt_names_view(decorator_names@),
            use_logical_deps,
        ),
{
    let ghost nv = opt_names_view(decorator_names@);
    let mut out: Vec<(Trigger, Target)> = Vec::new();
    if !use_logical_deps {
        if !is_overload && !in_function {
            out.push((Trigger::Name(func_fullname.clone()), Target::Current));
        }
        assert(deps_view(out@) =~= spec_decorator_deps(
            func_fullname@,
            is_overload,
            in_function,
            nv,
            use_logical_deps,
        ));
        return out;
    }
    let mut i: usize = 0;
    while i < decorator_names.len()
        invariant
            use_logical_deps,
            i <= decorator_names@.len(),
            nv == opt_names_view(decorator_names@),
            deps_view(out@) =~= spec_decorator_deps(
                func_fullname@,
                is_overload,
                in_function,
                nv.take(i as int),
                use_logical_deps,
            ),
        decreases decorator_names.len() - i,
    {
        assert(nv.take(i + 1).drop_last() =~= nv.take(i as int));
        assert(nv.take(i + 1).last() == opt_view(decorator_names@[i as int]));
        let ghost before = deps_view(out@);
        match &decorator_names[i] {
            Some(n) => {
                out.push((Trigger::Name(n.clone()), Target::TriggerOf(func_fullname.clone())));
                assert(deps_view(out@) =~= before.push(
                    (TriggerView::Name(n@), TargetView::TriggerOf(func_fullname@)),
                ));
            },
            None => {},
        }
        i = i + 1;
    }
    assert(nv.take(i as int) =~= nv);
    out
}

/// A reference to a global name: a non-empty full name depends on its own
/// trigger, and a reference whose type is a type object depends on that
/// class's `__init__` and `__new__`.
pub open spec fn spec_global_ref_deps(fullname: Option<Seq<char>>, type_object: Option<Seq<char>>) -> Seq<
    (TriggerView, TargetView),
> {
    let own = match fullname {
        Some(f) => if f.len() > 0 {
            seq![(TriggerView::Name(f), TargetView::Current)]
        } else {
            seq![]
        },
        None => seq![],
    };
    let ctor = match type_object {
        Some(c) => seq![
            (TriggerView::Name(dotted(c, "__init__"@)), TargetView::Current),
            (TriggerView::Name(dotted(c, "__new__"@)), TargetView::Current),
        ],
        None => seq![],
    };
    own + ctor
}

/// See `spec_global_ref_deps`; `type_object` is the full name of the class
/// when the reference's type is a type object.
pub fn global_ref_dependencies(fullname: &Option<String>, type_object: &Option<String>) -> (r: Vec<
    (Trigger, Target),
>)
    ensures
        deps_view(r@) == spec_global_ref_deps(opt_view(*fullname), opt_view(*type_object)),
{
    let mut out: Vec<(Trigger, Target)> = Vec::new();
    match fullname {
        Some(f) => {
            if f.as_str().unicode_len() > 0 {
                out.push((Trigger::Name(f.clone()), Target::Current));
            }
        },
        None => {},
    }
    match type_object {
        Some(c) => {
            out.push((Trigger::Name(make_dotted(c.as_str(), "__init__")), Target::Current));
            out.push((Trigger::Name(make_dotted(c.as_str(), "__new__")), Target::Current));
        },
        None => {},
    }
    assert(deps_view(out@) =~= spec_global_ref_deps(opt_view(*fullname), opt_view(*type_object)));
    out
}

/// One step of an attribute chain `...x.a.b` whose object types are `Any`:
/// the attribute name, the `Any` kind of its object's type (`None` when
/// that type is not `Any`), the missing import behind that `Any`, and
/// whether the object is itself an attribute access.
pub struct AnyChainLink {
    pub name: String,
    pub object_any_kind: Option<i64>,
    pub missing_import_name: Option<String>,
    pub object_is_member: bool,
}

pub struct AnyChainLinkView {
    pub name: Seq<char>,
    pub object_any_kind: Option<i64>,
    pub missing_import_name: Option<Seq<char>>,
    pub object_is_member: bool,
}

pub open spec fn chain_view(links: Seq<AnyChainLink>) -> Seq<AnyChainLinkView> {
    links.map_values(
        |l: AnyChainLink|
            AnyChainLinkView {
                name: l.name@,
                object_any_kind: l.object_any_kind,
                missing_import_name: opt_view(l.missing_import_name),
                object_is_member: l.object_is_member,
            },
    )
}

/// The full name an attribute access on an unimported module's `Any`
/// stands for: from the outermost access, follow objects while their type
/// is `Any` derived from another `Any` and they are attribute accesses,
/// collecting the attribute names; the object reached must be `Any` from
/// an unimported module with a recorded missing import `m`, giving
/// `m.a.b...`. `links[k]` describes the access `k` steps inwards.
pub open spec fn spec_unimported_fullname(
    links: Seq<AnyChainLinkView>,
    k: int,
    suffix: Seq<char>,
    from_another_any: i64,
    from_unimported: i64,
) -> Option<Seq<char>>
    decreases links.len() - k,
{
    if k < 0 || k >= links.len() {
        None
    } else {
        let link = links[k];
        match link.object_any_kind {
            None => None,
            Some(kind) => if kind == from_another_any && link.object_is_member {
                spec_unimported_fullname(
                    links,
                    k + 1,
                    seq!['.'] + link.name + suffix,
                    from_another_any,
                    from_unimported,
                )
            } else if kind == from_unimported {
                match link.missing_import_name {
                    Some(m) => Some(dotted(m, link.name) + suffix),
                    None => None,
                }
            } else {
                None
            },
        }
    }
}

/// See `spec_unimported_fullname`, started at the outermost access.
pub fn unimported_fullname(links: &[AnyChainLink], from_another_any: i64, from_unimported: i64) -> (r:
    Option<String>)
    ensures
        opt_view(r) == spec_unimported_fullname(
            chain_view(links@),
            0,
            seq![],
            from_another_any,
            from_unimported,
        ),
{
    let ghost cv = chain_view(links@);
    let mut suffix = String::new();
    let mut k: usize = 0;
    while k < links.len()
        invariant
            k <= links@.len(),
            cv == chain_view(links@),
            spec_unimported_fullname(cv, 0, seq![], from_another_any, from_unimported)
                == spec_unimported_fullname(cv, k as int, suffix@, from_another_any, from_unimported),
        decreases links.len() - k,
    {
        let link = &links[k];
        assert(cv[k as int].name == link.name@);
        assert(cv[k as int].object_any_kind == link.object_any_kind);
        assert(cv[k as int].object_is_member == link.object_is_member);
        assert(cv[k as int].missing_import_name == opt_view(link.missing_import_name));
        match link.object_any_kind {
            None => return None,
            Some(kind) => {
                if kind == from_another_any && link.object_is_member {
                    proof {
                        reveal_strlit(".");
                    }
                    let mut next = ".".to_owned();
                    next.append(link.name.as_str());
                    next.append(suffix.as_str());
                    assert(next@ =~= seq!['.'] + link.name@ + suffix@);
                    suffix = next;
                    k = k + 1;
                } else if kind == from_unimported {
                    match &link.missing_import_name {
                        Some(m) => {
                            let mut out = make_dotted(m.as_str(), link.name.as_str());
                            out.append(suffix.as_str());
                            return Some(out);
                        },
                        None => return None,
                    }
                } else {
                    return None;
                }
            },
        }
    }
    None
}

/// How an attribute access `obj.name` resolves.
pub enum MemberAccess {
    /// The access has a reference kind: a global reference with its full
    /// name and, when its type is a type object, the class's full name.
    Global { fullname: Option<String>, type_object: Option<String> },
    /// `obj` has no type.
    Untyped,
    /// `obj` names a module.
    ModuleAttribute { module: String },
    /// An attribute of a value: the attribute triggers of `obj`'s type and,
    /// with logical dependencies when that type is `Any`, the chain that
    /// may lead to an unimported module.
    Attribute { attr_triggers: Vec<String>, any_chain: Option<Vec<AnyChainLink>> },
}

/// The dependencies of an attribute access: a class named by `obj` depends
/// on its trigger; then a global reference as `spec_global_ref_deps`, a
/// module attribute on `module.name`, or a value attribute on each of its
/// attribute triggers and on the unimported name it stands for.
pub open spec fn spec_member_expr_deps(
    class_ref: Option<Seq<char>>,
    name: Seq<char>,
    access: MemberAccess,
    from_another_any: i64,
    from_unimported: i64,
) -> Seq<(TriggerView, TargetView)> {
    let own = match class_ref {
        Some(c) => seq![(TriggerView::Name(c), TargetView::Current)],
        None => seq![],
    };
    own + match access {
        MemberAccess::Global { fullname, type_object } => spec_global_ref_deps(
            opt_view(fullname),
            opt_view(type_object),
        ),
        MemberAccess::Untyped => seq![],
        MemberAccess::ModuleAttribute { module } => seq![
            (TriggerView::Name(dotted(module@, name)), TargetView::Current),
        ],
        MemberAccess::Attribute { attr_triggers, any_chain } => made_under(
            names_view(attr_triggers@),
            TargetView::Current,
        ) + match any_chain {
            Some(links) => match spec_unimported_fullname(
                chain_view(links@),
                0,
                seq![],
                from_another_any,
                from_unimported,
            ) {
                Some(n) => seq![(TriggerView::Name(n), TargetView::Current)],
                None => seq![],
            },
            None => seq![],
        },
    }
}

/// See `spec_member_expr_deps`.
pub fn member_expr_dependencies(
    class_ref: &Option<String>,
    name: &String,
    access: &MemberAccess,
    from_another_any: i64,
    from_unimported: i64,
) -> (r: Vec<(Trigger, Target)>)
    ensures
        deps_view(r@) == spec_member_expr_deps(
            opt_view(*class_ref),
            name@,
            *access,
            from_another_any,
            from_unimported,
        ),
{
    let mut out: Vec<(Trigger, Target)> = Vec::new();
    match class_ref {
        Some(c) => out.push((Trigger::Name(c.clone()), Target::Current)),
        None => {},
    }
    let ghost own = deps_view(out@);
    assert(own =~= match opt_view(*class_ref) {
        Some(c) => seq![(TriggerView::Name(c), TargetView::Current)],
        None => seq![],
    });
    match access {
        MemberAccess::Global { fullname, type_object } => {
            let rest = global_ref_dependencies(fullname, type_object);
            let mut i: usize = 0;
            while i < rest.len()
                invariant
                    i <= rest@.len(),
                    deps_view(out@) =~= own + deps_view(rest@).take(i as int),
                decreases rest.len() - i,
            {
                let ghost before = deps_view(out@);
                let (t, g) = &rest[i];
                let t2 = match t {
                    Trigger::Name(n) => Trigger::Name(n.clone()),
                    Trigger::Wildcard(n) => Trigger::Wildcard(n.clone()),
                    Trigger::Made(n) => Trigger::Made(n.clone()),
                };
                let g2 = match g {
                    Target::Current => Target::Current,
                    Target::TriggerOf(n) => Target::TriggerOf(n.clone()),
                    Target::Plain(n) => Target::Plain(n.clone()),
                };
                out.push((t2, g2));
                assert(deps_view(out@) =~= before.push(deps_view(rest@)[i as int]));
                i = i + 1;
                assert(deps_view(out@) =~= own + deps_view(rest@).take(i as int));
            }
            assert(deps_view(rest@).take(i as int) =~= deps_view(rest@));
        },
        MemberAccess::Untyped => {
            assert(deps_view(out@) =~= own + seq![]);
        },
        MemberAccess::ModuleAttribute { module } => {
            out.push((Trigger::Name(make_dotted(module.as_str(), name.as_str())), Target::Current));
            assert(deps_view(out@) =~= own + seq![
                (TriggerView::Name(dotted(module@, name@)), TargetView::Current),
            ]);
        },
        MemberAccess::Attribute { attr_triggers, any_chain } => {
            push_made_under(&mut out, attr_triggers.as_slice(), &Target::Current);
            let ghost mid = deps_view(out@);
            match any_chain {
                Some(links) => match unimported_fullname(
                    links.as_slice(),
                    from_another_any,
                    from_unimported,
                ) {
                    Some(n) => {
                        out.push((Trigger::Name(n), Target::Current));
                        assert(deps_view(out@) =~= mid + seq![(TriggerView::Name(n@), TargetView::Current)]);
                    },
                    None => {
                        assert(deps_view(out@) =~= mid + seq![]);
                    },
                },
                None => {
                    assert(deps_view(out@) =~= mid + seq![]);
                },
            }
        },
    }
    assert(deps_view(out@) =~= spec_member_expr_deps(
        opt_view(*class_ref),
        name@,
        *access,
        from_another_any,
        from_unimported,
    ));
    out
}

/// The map after recording dependencies in order; `None` as soon as one
/// defers.
pub open spec fn spec_add_dependencies(
    deps: Set<(Seq<char>, Seq<char>)>,
    scope: ScopeView,
    items: Seq<(Seq<char>, Option<Seq<char>>)>,
) -> Option<Set<(Seq<char>, Seq<char>)>>
    decreases items.len(),
{
    if items.len() == 0 {
        Some(deps)
    } else {
        match spec_add_dependencies(deps, scope, items.drop_last()) {
            Some(m) => spec_add_dependency(m, scope, items.last().0, items.last().1),
            None => None,
        }
    }
}

/// Recording dependencies in order, stopping at the first that defers:
/// the map as it then stands, and whether every dependency was recorded.
pub open spec fn spec_add_dependencies_run(
    deps: Set<(Seq<char>, Seq<char>)>,
    scope: ScopeView,
    items: Seq<(Seq<char>, Option<Seq<char>>)>,
) -> (Set<(Seq<char>, Seq<char>)>, bool)
    decreases items.len(),
{
    if items.len() == 0 {
        (deps, true)
    } else {
        let (m, ok) = spec_add_dependencies_run(deps, scope, items.drop_last());
        if !ok {
            (m, false)
        } else {
            match spec_add_dependency(m, scope, items.last().0, items.last().1) {
                Some(m2) => (m2, true),
                None => (m, false),
            }
        }
    }
}

/// The run completes exactly when `spec_add_dependencies` gives a map,
/// and that map is the one the run leaves.
proof fn lemma_add_dependencies_run_agrees(
    deps: Set<(Seq<char>, Seq<char>)>,
    scope: ScopeView,
    items: Seq<(Seq<char>, Option<Seq<char>>)>,
)
    ensures
        spec_add_dependencies(deps, scope, items) == (if spec_add_dependencies_run(
            deps,
            scope,
            items,
        ).1 {
            Some(spec_add_dependencies_run(deps, scope, items).0)
        } else {
            None
        }),
    decreases items.len(),
{
    if items.len() > 0 {
        lemma_add_dependencies_run_agrees(deps, scope, items.drop_last());
    }
}

/// Once a prefix of the dependencies defers, the whole list stops there.
proof fn lemma_add_dependencies_run_prefix_failed(
    deps: Set<(Seq<char>, Seq<char>)>,
    scope: ScopeView,
    items: Seq<(Seq<char>, Option<Seq<char>>)>,
    k: int,
)
    requires
        0 <= k <= items.len(),
        !spec_add_dependencies_run(deps, scope, items.take(k)).1,
    ensures
        spec_add_dependencies_run(deps, scope, items) == spec_add_dependencies_run(
            deps,
            scope,
            items.take(k),
        ),
    decreases items.len(),
{
    if k < items.len() {
        assert(items.drop_last().take(k) =~= items.take(k));
        lemma_add_dependencies_run_prefix_failed(deps, scope, items.drop_last(), k);
    } else {
        assert(items.take(k) =~= items);
    }
}

pub open spec fn resolved_view(items: Seq<(String, Option<String>)>) -> Seq<(Seq<char>, Option<Seq<char>>)> {
    items.map_values(|d: (String, Option<String>)| (d.0@, opt_view(d.1)))
}

/// Record made dependencies (a trigger and, when given, a target) in order,
/// as `add_dependency` does each; on a deferral the map is left as it was
/// when that dependency came, holding what the earlier ones recorded.
pub fn add_dependencies(
    deps: &mut DependencyMap,
    scope: &Scope,
    items: Vec<(String, Option<String>)>,
) -> (r: Result<(), DeferError>)
    ensures
        match spec_add_dependencies(old(deps)@, scope@, resolved_view(items@)) {
            Some(m) => r is Ok && final(deps)@ == m,
            None => r is Err,
        },
        final(deps)@ == spec_add_dependencies_run(old(deps)@, scope@, resolved_view(items@)).0,
        r is Ok <==> spec_add_dependencies_run(old(deps)@, scope@, resolved_view(items@)).1,
{
    let ghost iv = resolved_view(items@);
    let ghost start = deps@;
    proof {
        lemma_add_dependencies_run_agrees(start, scope@, iv);
    }
    let mut i: usize = 0;
    while i < items.len()
        invariant
            i <= items@.len(),
            iv == resolved_view(items@),
            start == old(deps)@,
            spec_add_dependencies_run(start, scope@, iv.take(i as int)) == (deps@, true),
        decreases items.len() - i,
    {
        assert(iv.take(i + 1).drop_last() =~= iv.take(i as int));
        assert(iv.take(i + 1).last() == iv[i as int]);
        let (t, g) = &items[i];
        assert(iv[i as int] == (t@, opt_view(*g)));
        let g2 = match g {
            Some(x) => Some(x.clone()),
            None => None,
        };
        match add_dependency(deps, scope, t.clone(), g2) {
            Ok(()) => {},
            Err(e) => {
                proof {
                    assert(spec_add_dependencies_run(start, scope@, iv.take(i + 1)) == (deps@, false));
                    lemma_add_dependencies_run_prefix_failed(start, scope@, iv, i + 1);
                    lemma_add_dependencies_run_agrees(start, scope@, iv);
                }
                return Err(e);
            },
        }
        i = i + 1;
    }
    assert(iv.take(i as int) =~= iv);
    Ok(())
}

/// The pair a dependency records, given the current target `current`.
pub open spec fn recorded_pair(item: (Seq<char>, Option<Seq<char>>), current: Seq<char>) -> (
    Seq<char>,
    Seq<char>,
) {
    (
        item.0,
        match item.1 {
            Some(t) => t,
            None => current,
        },
    )
}

/// The pairs a list of dependencies records.
pub open spec fn recorded_pairs(items: Seq<(Seq<char>, Option<Seq<char>>)>, current: Seq<char>) -> Set<
    (Seq<char>, Seq<char>),
> {
    Set::new(
        |p: (Seq<char>, Seq<char>)|
            exists|i: int|
                0 <= i < items.len() && !ignored_trigger(#[trigger] items[i].0) && p
                    == recorded_pair(items[i], current),
    )
}

/// Inside a module, recording dependencies never defers, and the result
/// is the union of the map with the pairs of the non-ignored dependencies,
/// whatever their order.
pub proof fn lemma_add_dependencies_union(
    deps: Set<(Seq<char>, Seq<char>)>,
    scope: ScopeView,
    items: Seq<(Seq<char>, Option<Seq<char>>)>,
)
    requires
        spec_current_target(scope) is Some,
    ensures
        spec_add_dependencies(deps, scope, items) == Some(
            deps.union(recorded_pairs(items, spec_current_target(scope)->0)),
        ),
    decreases items.len(),
{
    let current = spec_current_target(scope)->0;
    if items.len() == 0 {
        assert(deps.union(recorded_pairs(items, current)) =~= deps);
    } else {
        let prev = items.drop_last();
        lemma_add_dependencies_union(deps, scope, prev);
        let last = items.last();
        let before = deps.union(recorded_pairs(prev, current));
        assert forall|p: (Seq<char>, Seq<char>)| recorded_pairs(items, current).contains(p) <==> (
        recorded_pairs(prev, current).contains(p) || (!ignored_trigger(last.0) && p
            == recorded_pair(last, current))) by {
            if recorded_pairs(items, current).contains(p) {
                let i = choose|i: int|
                    0 <= i < items.len() && !ignored_trigger(#[trigger] items[i].0) && p
                        == recorded_pair(items[i], current);
                if i < prev.len() {
                    assert(prev[i] == items[i]);
                }
            }
            if recorded_pairs(prev, current).contains(p) {
                let i = choose|i: int|
                    0 <= i < prev.len() && !ignored_trigger(#[trigger] prev[i].0) && p
                        == recorded_pair(prev[i], current);
                assert(items[i] == prev[i]);
            }
            if !ignored_trigger(last.0) && p == recorded_pair(last, current) {
                assert(items[items.len() - 1] == last);
            }
        }
        if ignored_trigger(last.0) {
            assert(deps.union(recorded_pairs(items, current)) =~= before);
        } else {
            assert(deps.union(recorded_pairs(items, current)) =~= before.insert(
                recorded_pair(last, current),
            ));
        }
    }
}

// ---------------------------------------------------------------------------
// Statements
// ---------------------------------------------------------------------------

/// `import a, b`: each imported module's trigger invalidates the target.
pub open spec fn spec_import_deps(ids: Seq<Seq<char>>, target: Seq<char>) -> Seq<
    (TriggerView, TargetView),
> {
    ids.map_values(|id: Seq<char>| (TriggerView::Name(id), TargetView::Plain(target)))
}

/// See `spec_import_deps`.
pub fn import_dependencies(ids: &[String], target: &String) -> (r: Vec<(Trigger, Target)>)
    ensures
        deps_view(r@) == spec_import_deps(names_view(ids@), target@),
{
    let ghost iv = names_view(ids@);
    let mut out: Vec<(Trigger, Target)> = Vec::new();
    let mut i: usize = 0;
    while i < ids.len()
        invariant
            i <= ids@.len(),
            iv == names_view(ids@),
            deps_view(out@) =~= spec_import_deps(iv.take(i as int), target@),
        decreases ids.len() - i,
    {
        let ghost before = deps_view(out@);
        out.push((Trigger::Name(ids[i].clone()), Target::Plain(target.clone())));
        assert(deps_view(out@) =~= before.push(
            (TriggerView::Name(iv[i as int]), TargetView::Plain(target@)),
        ));
        assert(spec_import_deps(iv.take(i + 1), target@) =~= spec_import_deps(
            iv.take(i as int),
            target@,
        ).push((TriggerView::Name(iv[i as int]), TargetView::Plain(target@))));
        i = i + 1;
    }
    assert(iv.take(i as int) =~= iv);
    out
}

/// The attribute methods an augmented assignment `x op= y` depends on, on
/// `x`'s type: the operator's method and, when the operator has an
/// in-place form, the in-place method. Defers when the operator has no
/// method or its in-place name cannot be formed.
pub open spec fn spec_augmented_methods(method: Option<Seq<char>>, has_inplace: bool) -> Option<
    Seq<Seq<char>>,
> {
    match method {
        None => None,
        Some(m) => if !has_inplace {
            Some(seq![m])
        } else {
            match spec_inplace_method(m) {
                Some(i) => Some(seq![m, i]),
                None => None,
            }
        },
    }
}

/// See `spec_augmented_methods`.
pub fn augmented_assignment_methods(method: &Option<String>, has_inplace: bool) -> (r: Result<
    Vec<String>,
    DeferError,
>)
    ensures
        match spec_augmented_methods(opt_view(*method), has_inplace) {
            Some(ms) => r matches Ok(v) && names_view(v@) == ms,
            None => r is Err,
        },
{
    let m = match method {
        Some(m) => m,
        None => return Err(DeferError),
    };
    let mut out: Vec<String> = Vec::new();
    out.push(m.clone());
    if has_inplace {
        match inplace_method_name(m.as_str()) {
            Some(i) => out.push(i),
            None => return Err(DeferError),
        }
    }
    assert(names_view(out@) =~= spec_augmented_methods(opt_view(*method), has_inplace)->0);
    Ok(out)
}

/// The attribute methods a `for` loop depends on: on the iterated
/// expression's type, `__iter__` and `__getitem__` (`__aiter__` for
/// `async for`); on the inferred iterator type, `__next__` (`__anext__`).
pub open spec fn spec_for_methods(is_async: bool) -> (Seq<Seq<char>>, Seq<char>) {
    if is_async {
        (seq!["__aiter__"@], "__anext__"@)
    } else {
        (seq!["__iter__"@, "__getitem__"@], "__next__"@)
    }
}

/// See `spec_for_methods`.
pub fn for_loop_methods(is_async: bool) -> (r: (Vec<String>, String))
    ensures
        (names_view(r.0@), r.1@) == spec_for_methods(is_async),
{
    let mut on_expr: Vec<String> = Vec::new();
    if is_async {
        on_expr.push("__aiter__".to_owned());
        assert(names_view(on_expr@) =~= seq!["__aiter__"@]);
        (on_expr, "__anext__".to_owned())
    } else {
        on_expr.push("__iter__".to_owned());
        on_expr.push("__getitem__".to_owned());
        assert(names_view(on_expr@) =~= seq!["__iter__"@, "__getitem__"@]);
        (on_expr, "__next__".to_owned())
    }
}

/// The attribute methods each context manager of a `with` statement
/// depends on: `__enter__` and `__exit__`, or `__aenter__` and `__aexit__`
/// for `async with`.
pub open spec fn spec_with_methods(is_async: bool) -> Seq<Seq<char>> {
    if is_async {
        seq!["__aenter__"@, "__aexit__"@]
    } else {
        seq!["__enter__"@, "__exit__"@]
    }
}

/// See `spec_with_methods`.
pub fn with_methods(is_async: bool) -> (r: Vec<String>)
    ensures
        names_view(r@) == spec_with_methods(is_async),
{
    let mut out: Vec<String> = Vec::new();
    if is_async {
        out.push("__aenter__".to_owned());
        out.push("__aexit__".to_owned());
    } else {
        out.push("__enter__".to_owned());
        out.push("__exit__".to_owned());
    }
    assert(names_view(out@) =~= spec_with_methods(is_async));
    out
}

/// A name reference is walked as a global reference unless it is a local
/// or a class member.
pub open spec fn spec_is_global_ref(kind: Option<i64>, ldef: i64, mdef: i64) -> bool {
    kind != Some(ldef) && kind != Some(mdef)
}

/// See `spec_is_global_ref`.
pub fn is_global_ref(kind: Option<i64>, ldef: i64, mdef: i64) -> (r: bool)
    ensures
        r == spec_is_global_ref(kind, ldef, mdef),
{
    match kind {
        Some(k) => k != ldef && k != mdef,
        None => true,
    }
}

/// `isinstance(x, C)` with `C` a module-level class reference with a full
/// name depends on `C`'s trigger only (its arguments are not walked);
/// `None` for any other call, which is walked as usual. The second
/// argument comes as its full name when it is such a reference.
pub open spec fn spec_isinstance_dependency(arg_count: nat, class_arg: Option<Seq<char>>) -> Option<
    Seq<char>,
> {
    if arg_count == 2 {
        match class_arg {
            Some(c) => if c.len() > 0 {
                Some(c)
            } else {
                None
            },
            None => None,
        }
    } else {
        None
    }
}

/// See `spec_isinstance_dependency`.
pub fn isinstance_dependency(arg_count: usize, class_arg: &Option<String>) -> (r: Option<String>)
    ensures
        opt_view(r) == spec_isinstance_dependency(arg_count as nat, opt_view(*class_arg)),
{
    if arg_count != 2 {
        return None;
    }
    match class_arg {
        Some(c) => if c.as_str().unicode_len() > 0 {
            Some(c.clone())
        } else {
            None
        },
        None => None,
    }
}

// ---------------------------------------------------------------------------
// Dispatch
// ---------------------------------------------------------------------------

/// The node kinds that get a dependency rule of their own.
#[derive(Debug, Clone, Copy, PartialEq, Eq, Structural)]
pub enum Visit {
    MypyFile,
    FuncDef,
    Decorator,
    ClassDef,
    NewTypeExpr,
    Import,
    ImportFrom,
    ImportAll,
    Block,
    AssignmentStmt,
    OperatorAssignmentStmt,
    ForStmt,
    WithStmt,
    DelStmt,
    NameExpr,
    MemberExpr,
    SuperExpr,
    CallExpr,
    CastExpr,
    TypeFormExpr,
    AssertTypeExpr,
    TypeApplication,
    IndexExpr,
    UnaryExpr,
    OpExpr,
    ComparisonExpr,
    GeneratorExpr,
    DictionaryComprehension,
    StarExpr,
    YieldFromExpr,
    AwaitExpr,
}

/// The child fields that plain traversals walk.
#[derive(Debug, Clone, Copy, PartialEq, Eq, Structural)]
pub enum ChildField {
    Expr,
    Generator,
    Capture,
    Name,
    Target,
    Value,
    Items,
    Patterns,
}

/// How the walk handles a node, by the name of its class.
#[derive(Debug, Clone, Copy, PartialEq, Eq, Structural)]
pub enum NodeKind {
    /// A node with a dependency rule.
    Visit(Visit),
    /// The items of an overloaded function, then its implementation.
    OverloadedFuncDef,
    /// Walk one child.
    SingleChild(ChildField),
    /// Walk one child when it is not `None`.
    OptionalChild(ChildField),
    /// Walk one child when it is truthy.
    TruthyChild(ChildField),
    /// Walk two children.
    TwoChildren(ChildField, ChildField),
    /// Walk each element of a list child.
    ListField(ChildField),
    IfStmt,
    WhileStmt,
    AssertStmt,
    RaiseStmt,
    TryStmt,
    MatchStmt,
    SliceExpr,
    RevealExpr,
    DictExpr,
    TemplateStrExpr,
    ConditionalExpr,
    /// Argument initializers, then the body.
    Function,
    AsPattern,
    MappingPattern,
    ClassPattern,
    /// A node without children to walk.
    Leaf,
    /// A node the walk does not know: it defers.
    Unsupported,
}

/// The handling of each node class.
pub open spec fn spec_node_kind(class_name: Seq<char>) -> NodeKind {
    if class_name == "MypyFile"@ {
        NodeKind::Visit(Visit::MypyFile)
    } else if class_name == "FuncDef"@ {
        NodeKind::Visit(Visit::FuncDef)
    } else if class_name == "Decorator"@ {
        NodeKind::Visit(Visit::Decorator)
    } else if class_name == "ClassDef"@ {
        NodeKind::Visit(Visit::ClassDef)
    } else if class_name == "NewTypeExpr"@ {
        NodeKind::Visit(Visit::NewTypeExpr)
    } else if class_name == "Import"@ {
        NodeKind::Visit(Visit::Import)
    } else if class_name == "ImportFrom"@ {
        NodeKind::Visit(Visit::ImportFrom)
    } else if class_name == "ImportAll"@ {
        NodeKind::Visit(Visit::ImportAll)
    } else if class_name == "Block"@ {
        NodeKind::Visit(Visit::Block)
    } else if class_name == "AssignmentStmt"@ {
        NodeKind::Visit(Visit::AssignmentStmt)
    } else if class_name == "OperatorAssignmentStmt"@ {
        NodeKind::Visit(Visit::OperatorAssignmentStmt)
    } else if class_name == "ForStmt"@ {
        NodeKind::Visit(Visit::ForStmt)
    } else if class_name == "WithStmt"@ {
        NodeKind::Visit(Visit::WithStmt)
    } else if class_name == "DelStmt"@ {
        NodeKind::Visit(Visit::DelStmt)
    } else if class_name == "NameExpr"@ {
        NodeKind::Visit(Visit::NameExpr)
    } else if class_name == "MemberExpr"@ {
        NodeKind::Visit(Visit::MemberExpr)
    } else if class_name == "SuperExpr"@ {
        NodeKind::Visit(Visit::SuperExpr)
    } else if class_name == "CallExpr"@ {
        NodeKind::Visit(Visit::CallExpr)
    } else if class_name == "CastExpr"@ {
        NodeKind::Visit(Visit::CastExpr)
    } else if class_name == "TypeFormExpr"@ {
        NodeKind::Visit(Visit::TypeFormExpr)
    } else if class_name == "AssertTypeExpr"@ {
        NodeKind::Visit(Visit::AssertTypeExpr)
    } else if class_name == "TypeApplication"@ {
        NodeKind::Visit(Visit::TypeApplication)
    } else if class_name == "IndexExpr"@ {
        NodeKind::Visit(Visit::IndexExpr)
    } else if class_name == "UnaryExpr"@ {
        NodeKind::Visit(Visit::UnaryExpr)
    } else if class_name == "OpExpr"@ {
        NodeKind::Visit(Visit::OpExpr)
    } else if class_name == "ComparisonExpr"@ {
        NodeKind::Visit(Visit::ComparisonExpr)
    } else if class_name == "GeneratorExpr"@ {
        NodeKind::Visit(Visit::GeneratorExpr)
    } else if class_name == "DictionaryComprehension"@ {
        NodeKind::Visit(Visit::DictionaryComprehension)
    } else if class_name == "StarExpr"@ {
        NodeKind::Visit(Visit::StarExpr)
    } else if class_name == "YieldFromExpr"@ {
        NodeKind::Visit(Visit::YieldFromExpr)
    } else if class_name == "AwaitExpr"@ {
        NodeKind::Visit(Visit::AwaitExpr)
    } else if class_name == "OverloadedFuncDef"@ {
        NodeKind::OverloadedFuncDef
    } else if class_name == "ExpressionStmt"@ {
        NodeKind::SingleChild(ChildField::Expr)
    } else if class_name == "IfStmt"@ {
        NodeKind::IfStmt
    } else if class_name == "WhileStmt"@ {
        NodeKind::WhileStmt
    } else if class_name == "ReturnStmt"@ {
        NodeKind::OptionalChild(ChildField::Expr)
    } else if class_name == "AssertStmt"@ {
        NodeKind::AssertStmt
    } else if class_name == "RaiseStmt"@ {
        NodeKind::RaiseStmt
    } else if class_name == "TryStmt"@ {
        NodeKind::TryStmt
    } else if class_name == "MatchStmt"@ {
        NodeKind::MatchStmt
    } else if class_name == "TypeAliasStmt"@ {
        NodeKind::TwoChildren(ChildField::Name, ChildField::Value)
    } else if class_name == "YieldExpr"@ {
        NodeKind::TruthyChild(ChildField::Expr)
    } else if class_name == "SliceExpr"@ {
        NodeKind::SliceExpr
    } else if class_name == "RevealExpr"@ {
        NodeKind::RevealExpr
    } else if class_name == "AssignmentExpr"@ {
        NodeKind::TwoChildren(ChildField::Target, ChildField::Value)
    } else if class_name == "ListExpr"@ {
        NodeKind::ListField(ChildField::Items)
    } else if class_name == "TupleExpr"@ {
        NodeKind::ListField(ChildField::Items)
    } else if class_name == "SetExpr"@ {
        NodeKind::ListField(ChildField::Items)
    } else if class_name == "DictExpr"@ {
        NodeKind::DictExpr
    } else if class_name == "TemplateStrExpr"@ {
        NodeKind::TemplateStrExpr
    } else if class_name == "ConditionalExpr"@ {
        NodeKind::ConditionalExpr
    } else if class_name == "LambdaExpr"@ {
        NodeKind::Function
    } else if class_name == "ListComprehension"@ {
        NodeKind::SingleChild(ChildField::Generator)
    } else if class_name == "SetComprehension"@ {
        NodeKind::SingleChild(ChildField::Generator)
    } else if class_name == "AsPattern"@ {
        NodeKind::AsPattern
    } else if class_name == "OrPattern"@ {
        NodeKind::ListField(ChildField::Patterns)
    } else if class_name == "SequencePattern"@ {
        NodeKind::ListField(ChildField::Patterns)
    } else if class_name == "ValuePattern"@ {
        NodeKind::SingleChild(ChildField::Expr)
    } else if class_name == "StarredPattern"@ {
        NodeKind::OptionalChild(ChildField::Capture)
    } else if class_name == "MappingPattern"@ {
        NodeKind::MappingPattern
    } else if class_name == "ClassPattern"@ {
        NodeKind::ClassPattern
    } else if class_name == "StrExpr"@ {
        NodeKind::Leaf
    } else if class_name == "IntExpr"@ {
        NodeKind::Leaf
    } else if class_name == "FloatExpr"@ {
        NodeKind::Leaf
    } else if class_name == "BytesExpr"@ {
        NodeKind::Leaf
    } else if class_name == "ComplexExpr"@ {
        NodeKind::Leaf
    } else if class_name == "EllipsisExpr"@ {
        NodeKind::Leaf
    } else if class_name == "Var"@ {
        NodeKind::Leaf
    } else if class_name == "ContinueStmt"@ {
        NodeKind::Leaf
    } else if class_name == "PassStmt"@ {
        NodeKind::Leaf
    } else if class_name == "BreakStmt"@ {
        NodeKind::Leaf
    } else if class_name == "TempNode"@ {
        NodeKind::Leaf
    } else if class_name == "NonlocalDecl"@ {
        NodeKind::Leaf
    } else if class_name == "GlobalDecl"@ {
        NodeKind::Leaf
    } else if class_name == "TypeVarExpr"@ {
        NodeKind::Leaf
    } else if class_name == "ParamSpecExpr"@ {
        NodeKind::Leaf
    } else if class_name == "TypeVarTupleExpr"@ {
        NodeKind::Leaf
    } else if class_name == "TypeAliasExpr"@ {
        NodeKind::Leaf
    } else if class_name == "TypeAlias"@ {
        NodeKind::Leaf
    } else if class_name == "NamedTupleExpr"@ {
        NodeKind::Leaf
    } else if class_name == "TypedDictExpr"@ {
        NodeKind::Leaf
    } else if class_name == "EnumCallExpr"@ {
        NodeKind::Leaf
    } else if class_name == "SingletonPattern"@ {
        NodeKind::Leaf
    } else if class_name == "PromoteExpr"@ {
        NodeKind::Leaf
    } else {
        NodeKind::Unsupported
    }
}

/// The handling of a node, by the name of its class.
pub fn node_kind(class_name: &str) -> (r: NodeKind)
    ensures
        r == spec_node_kind(class_name@),
{
    if str_eq(class_name, "MypyFile") {
        NodeKind::Visit(Visit::MypyFile)
    } else if str_eq(class_name, "FuncDef") {
        NodeKind::Visit(Visit::FuncDef)
    } else if str_eq(class_name, "Decorator") {
        NodeKind::Visit(Visit::Decorator)
    } else if str_eq(class_name, "ClassDef") {
        NodeKind::Visit(Visit::ClassDef)
    } else if str_eq(class_name, "NewTypeExpr") {
        NodeKind::Visit(Visit::NewTypeExpr)
    } else if str_eq(class_name, "Import") {
        NodeKind::Visit(Visit::Import)
    } else if str_eq(class_name, "ImportFrom") {
        NodeKind::Visit(Visit::ImportFrom)
    } else if str_eq(class_name, "ImportAll") {
        NodeKind::Visit(Visit::ImportAll)
    } else if str_eq(class_name, "Block") {
        NodeKind::Visit(Visit::Block)
    } else if str_eq(class_name, "AssignmentStmt") {
        NodeKind::Visit(Visit::AssignmentStmt)
    } else if str_eq(class_name, "OperatorAssignmentStmt") {
        NodeKind::Visit(Visit::OperatorAssignmentStmt)
    } else if str_eq(class_name, "ForStmt") {
        NodeKind::Visit(Visit::ForStmt)
    } else if str_eq(class_name, "WithStmt") {
        NodeKind::Visit(Visit::WithStmt)
    } else if str_eq(class_name, "DelStmt") {
        NodeKind::Visit(Visit::DelStmt)
    } else if str_eq(class_name, "NameExpr") {
        NodeKind::Visit(Visit::NameExpr)
    } else if str_eq(class_name, "MemberExpr") {
        NodeKind::Visit(Visit::MemberExpr)
    } else if str_eq(class_name, "SuperExpr") {
        NodeKind::Visit(Visit::SuperExpr)
    } else if str_eq(class_name, "CallExpr") {
        NodeKind::Visit(Visit::CallExpr)
    } else if str_eq(class_name, "CastExpr") {
        NodeKind::Visit(Visit::CastExpr)
    } else if str_eq(class_name, "TypeFormExpr") {
        NodeKind::Visit(Visit::TypeFormExpr)
    } else if str_eq(class_name, "AssertTypeExpr") {
        NodeKind::Visit(Visit::AssertTypeExpr)
    } else if str_eq(class_name, "TypeApplication") {
        NodeKind::Visit(Visit::TypeApplication)
    } else if str_eq(class_name, "IndexExpr") {
        NodeKind::Visit(Visit::IndexExpr)
    } else if str_eq(class_name, "UnaryExpr") {
        NodeKind::Visit(Visit::UnaryExpr)
    } else if str_eq(class_name, "OpExpr") {
        NodeKind::Visit(Visit::OpExpr)
    } else if str_eq(class_name, "ComparisonExpr") {
        NodeKind::Visit(Visit::ComparisonExpr)
    } else if str_eq(class_name, "GeneratorExpr") {
        NodeKind::Visit(Visit::GeneratorExpr)
    } else if str_eq(class_name, "DictionaryComprehension") {
        NodeKind::Visit(Visit::DictionaryComprehension)
    } else if str_eq(class_name, "StarExpr") {
        NodeKind::Visit(Visit::StarExpr)
    } else if str_eq(class_name, "YieldFromExpr") {
        NodeKind::Visit(Visit::YieldFromExpr)
    } else if str_eq(class_name, "AwaitExpr") {
        NodeKind::Visit(Visit::AwaitExpr)
    } else if str_eq(class_name, "OverloadedFuncDef") {
        NodeKind::OverloadedFuncDef
    } else if str_eq(class_name, "ExpressionStmt") {
        NodeKind::SingleChild(ChildField::Expr)
    } else if str_eq(class_name, "IfStmt") {
        NodeKind::IfStmt
    } else if str_eq(class_name, "WhileStmt") {
        NodeKind::WhileStmt
    } else if str_eq(class_name, "ReturnStmt") {
        NodeKind::OptionalChild(ChildField::Expr)
    } else if str_eq(class_name, "AssertStmt") {
        NodeKind::AssertStmt
    } else if str_eq(class_name, "RaiseStmt") {
        NodeKind::RaiseStmt
    } else if str_eq(class_name, "TryStmt") {
        NodeKind::TryStmt
    } else if str_eq(class_name, "MatchStmt") {
        NodeKind::MatchStmt
    } else if str_eq(class_name, "TypeAliasStmt") {
        NodeKind::TwoChildren(ChildField::Name, ChildField::Value)
    } else if str_eq(class_name, "YieldExpr") {
        NodeKind::TruthyChild(ChildField::Expr)
    } else if str_eq(class_name, "SliceExpr") {
        NodeKind::SliceExpr
    } else if str_eq(class_name, "RevealExpr") {
        NodeKind::RevealExpr
    } else if str_eq(class_name, "AssignmentExpr") {
        NodeKind::TwoChildren(ChildField::Target, ChildField::Value)
    } else if str_eq(class_name, "ListExpr") {
        NodeKind::ListField(ChildField::Items)
    } else if str_eq(class_name, "TupleExpr") {
        NodeKind::ListField(ChildField::Items)
    } else if str_eq(class_name, "SetExpr") {
        NodeKind::ListField(ChildField::Items)
    } else if str_eq(class_name, "DictExpr") {
        NodeKind::DictExpr
    } else if str_eq(class_name, "TemplateStrExpr") {
        NodeKind::TemplateStrExpr
    } else if str_eq(class_name, "ConditionalExpr") {
        NodeKind::ConditionalExpr
    } else if str_eq(class_name, "LambdaExpr") {
        NodeKind::Function
    } else if str_eq(class_name, "ListComprehension") {
        NodeKind::SingleChild(ChildField::Generator)
    } else if str_eq(class_name, "SetComprehension") {
        NodeKind::SingleChild(ChildField::Generator)
    } else if str_eq(class_name, "AsPattern") {
        NodeKind::AsPattern
    } else if str_eq(class_name, "OrPattern") {
        NodeKind::ListField(ChildField::Patterns)
    } else if str_eq(class_name, "SequencePattern") {
        NodeKind::ListField(ChildField::Patterns)
    } else if str_eq(class_name, "ValuePattern") {
        NodeKind::SingleChild(ChildField::Expr)
    } else if str_eq(class_name, "StarredPattern") {
        NodeKind::OptionalChild(ChildField::Capture)
    } else if str_eq(class_name, "MappingPattern") {
        NodeKind::MappingPattern
    } else if str_eq(class_name, "ClassPattern") {
        NodeKind::ClassPattern
    } else if str_eq(class_name, "StrExpr") {
        NodeKind::Leaf
    } else if str_eq(class_name, "IntExpr") {
        NodeKind::Leaf
    } else if str_eq(class_name, "FloatExpr") {
        NodeKind::Leaf
    } else if str_eq(class_name, "BytesExpr") {
        NodeKind::Leaf
    } else if str_eq(class_name, "ComplexExpr") {
        NodeKind::Leaf
    } else if str_eq(class_name, "EllipsisExpr") {
        NodeKind::Leaf
    } else if str_eq(class_name, "Var") {
        NodeKind::Leaf
    } else if str_eq(class_name, "ContinueStmt") {
        NodeKind::Leaf
    } else if str_eq(class_name, "PassStmt") {
        NodeKind::Leaf
    } else if str_eq(class_name, "BreakStmt") {
        NodeKind::Leaf
    } else if str_eq(class_name, "TempNode") {
        NodeKind::Leaf
    } else if str_eq(class_name, "NonlocalDecl") {
        NodeKind::Leaf
    } else if str_eq(class_name, "GlobalDecl") {
        NodeKind::Leaf
    } else if str_eq(class_name, "TypeVarExpr") {
        NodeKind::Leaf
    } else if str_eq(class_name, "ParamSpecExpr") {
        NodeKind::Leaf
    } else if str_eq(class_name, "TypeVarTupleExpr") {
        NodeKind::Leaf
    } else if str_eq(class_name, "TypeAliasExpr") {
        NodeKind::Leaf
    } else if str_eq(class_name, "TypeAlias") {
        NodeKind::Leaf
    } else if str_eq(class_name, "NamedTupleExpr") {
        NodeKind::Leaf
    } else if str_eq(class_name, "TypedDictExpr") {
        NodeKind::Leaf
    } else if str_eq(class_name, "EnumCallExpr") {
        NodeKind::Leaf
    } else if str_eq(class_name, "SingletonPattern") {
        NodeKind::Leaf
    } else if str_eq(class_name, "PromoteExpr") {
        NodeKind::Leaf
    } else {
        NodeKind::Unsupported
    }
}

} // verus!
