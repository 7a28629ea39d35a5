//! The resource processor: ordered actions on an entry's attributes, with
//! `${NAME}` in a value standing for an environment variable.

use crate::collector::config::{actions_view, ActionType, AttributeAction, AttributeActionView};
use crate::collector::entry::{LogEntry, LogEntryView};
use crate::collector::filter::ProcessorError;
use crate::string_map::StringMap;
use crate::text::{chars_of, replace_all, replaced, string_of};
use vstd::prelude::*;

verus! {

/// The index of the first `}` at or after `i`, or the length of `s` if there
/// is none.
pub open spec fn brace_from(s: Seq<char>, i: int) -> int
    decreases s.len() - i,
{
    if i < 0 || i >= s.len() {
        s.len() as int
    } else if s[i] == '}' {
        i
    } else {
        brace_from(s, i + 1)
    }
}

/// `brace_from` lies between its start and the end of the text.
pub proof fn lemma_brace_from_bounds(s: Seq<char>, i: int)
    requires
        0 <= i <= s.len(),
    ensures
        i <= brace_from(s, i) <= s.len(),
        brace_from(s, i) < s.len() ==> s[brace_from(s, i)] == '}',
        forall|k: int| i <= k < brace_from(s, i) ==> s[k] != '}',
    decreases s.len() - i,
{
    if i < s.len() && s[i] != '}' {
        lemma_brace_from_bounds(s, i + 1);
    }
}

/// Where the reference that starts at `i` ends: a reference is `${`, then one
/// or more characters other than `}`, then `}`. The result is the index of
/// that closing brace.
pub open spec fn reference_end(s: Seq<char>, i: int) -> Option<int> {
    if 0 <= i && i + 2 < s.len() && s[i] == '$' && s[i + 1] == '{' && s[i + 2] != '}'
        && brace_from(s, i + 2) < s.len() {
        Some(brace_from(s, i + 2))
    } else {
        None
    }
}

/// The names referenced in `s` from index `i` on, found from left to right;
/// the search goes on behind the closing brace of each reference.
pub open spec fn references(s: Seq<char>, i: int) -> Seq<Seq<char>>
    decreases s.len() - i,
    via references_terminates
{
    if i < 0 || i >= s.len() {
        Seq::empty()
    } else {
        match reference_end(s, i) {
            Some(j) => seq![s.subrange(i + 2, j)] + references(s, j + 1),
            None => references(s, i + 1),
        }
    }
}

#[via_fn]
proof fn references_terminates(s: Seq<char>, i: int) {
    if 0 <= i && i + 2 < s.len() {
        lemma_brace_from_bounds(s, i + 2);
    }
}

/// The text that refers to the variable `name`.
pub open spec fn reference_to(name: Seq<char>) -> Seq<char> {
    seq!['$', '{'] + name + seq!['}']
}

/// `text` after the first `n` of `names` have been handled in order: for each
/// name that `env` holds, every reference to that name in the text so far is
/// replaced by the variable's value; a name that `env` lacks changes nothing.
pub open spec fn substituted(
    text: Seq<char>,
    names: Seq<Seq<char>>,
    env: Map<Seq<char>, Seq<char>>,
    n: int,
) -> Seq<char>
    decreases n,
{
    if n <= 0 || n > names.len() {
        text
    } else {
        let before = substituted(text, names, env, n - 1);
        let name = names[n - 1];
        if env.dom().contains(name) {
            replaced(before, reference_to(name), env[name])
        } else {
            before
        }
    }
}

/// `value` with its environment references resolved against `env`.
pub open spec fn interpolated(value: Seq<char>, env: Map<Seq<char>, Seq<char>>) -> Seq<char> {
    let names = references(value, 0);
    substituted(value, names, env, names.len() as int)
}

/// What one action makes of an attribute map.
pub open spec fn apply_action(
    attributes: Map<Seq<char>, Seq<char>>,
    action: ActionType,
    key: Seq<char>,
    value: Seq<char>,
) -> Map<Seq<char>, Seq<char>> {
    match action {
        ActionType::Insert => if attributes.dom().contains(key) {
            attributes
        } else {
            attributes.insert(key, value)
        },
        ActionType::Update => if attributes.dom().contains(key) {
            attributes.insert(key, value)
        } else {
            attributes
        },
        ActionType::Upsert => attributes.insert(key, value),
        ActionType::Delete => attributes.remove(key),
    }
}

/// The attribute map after the first `n` actions, applied in order, each with
/// its value resolved against `env`.
pub open spec fn apply_actions(
    attributes: Map<Seq<char>, Seq<char>>,
    actions: Seq<AttributeActionView>,
    env: Map<Seq<char>, Seq<char>>,
    n: int,
) -> Map<Seq<char>, Seq<char>>
    decreases n,
{
    if n <= 0 || n > actions.len() {
        attributes
    } else {
        let a = actions[n - 1];
        apply_action(
            apply_actions(attributes, actions, env, n - 1),
            a.action,
            a.key,
            interpolated(a.value, env),
        )
    }
}

/// The lists of characters as mathematical values.
pub open spec fn names_view(names: Seq<Vec<char>>) -> Seq<Seq<char>> {
    Seq::new(names.len(), |i: int| names[i]@)
}

/// The index of the first `}` at or after `start`.
fn find_brace(s: &Vec<char>, start: usize) -> (j: usize)
    requires
        start <= s.len(),
    ensures
        j == brace_from(s@, start as int),
        start <= j <= s.len(),
{
    let mut j: usize = start;
    while j < s.len()
        invariant
            start <= j <= s.len(),
            brace_from(s@, j as int) == brace_from(s@, start as int),
        decreases s.len() - j,
    {
        if s[j] == '}' {
            return j;
        }
        j += 1;
    }
    j
}

/// The characters of `s` from `from` up to `to`.
fn slice_chars(s: &Vec<char>, from: usize, to: usize) -> (r: Vec<char>)
    requires
        from <= to <= s.len(),
    ensures
        r@ == s@.subrange(from as int, to as int),
{
    let mut r: Vec<char> = Vec::new();
    let mut k: usize = from;
    while k < to
        invariant
            from <= k <= to <= s.len(),
            r@ == s@.subrange(from as int, k as int),
        decreases to - k,
    {
        r.push(s[k]);
        assert(s@.subrange(from as int, k + 1) == s@.subrange(from as int, k as int).push(
            s@[k as int],
        ));
        k += 1;
    }
    r
}

/// The variable names that `s` refers to, from left to right.
pub fn scan_references(s: &Vec<char>) -> (names: Vec<Vec<char>>)
    ensures
        names_view(names@) == references(s@, 0),
{
    let mut names: Vec<Vec<char>> = Vec::new();
    let mut i: usize = 0;
    assert(names_view(names@) =~= Seq::<Seq<char>>::empty());
    while i < s.len()
        invariant
            i <= s.len(),
            names_view(names@) + references(s@, i as int) == references(s@, 0),
        decreases s.len() - i,
    {
        let ghost before = names_view(names@);
        let mut next: usize = i + 1;
        if s.len() - i > 2 && s[i] == '$' && s[i + 1] == '{' && s[i + 2] != '}' {
            let j = find_brace(s, i + 2);
            if j < s.len() {
                let name = slice_chars(s, i + 2, j);
                names.push(name);
                assert(names_view(names@) =~= before.push(s@.subrange(i + 2, j as int)));
                assert(before.push(s@.subrange(i + 2, j as int)) + references(s@, j + 1) =~= before
                    + (seq![s@.subrange(i + 2, j as int)] + references(s@, j + 1)));
                next = j + 1;
            }
        }
        i = next;
    }
    assert(references(s@, i as int) =~= Seq::<Seq<char>>::empty());
    assert(names_view(names@) + Seq::<Seq<char>>::empty() =~= names_view(names@));
    names
}

/// `${`, the name, `}`.
fn reference_of(name: &Vec<char>) -> (p: Vec<char>)
    ensures
        p@ == reference_to(name@),
{
    let mut p: Vec<char> = Vec::new();
    p.push('$');
    p.push('{');
    crate::text::extend_chars(&mut p, name);
    p.push('}');
    assert(p@ =~= reference_to(name@));
    p
}

/// Adds, changes or removes attributes of every entry.
pub struct ResourceProcessor {
    name: String,
    attributes: Vec<AttributeAction>,
}

impl ResourceProcessor {
    /// The configured actions, in order.
    pub closed spec fn actions(self) -> Seq<AttributeActionView> {
        actions_view(self.attributes@)
    }

    /// The processor's name.
    pub closed spec fn spec_name(self) -> Seq<char> {
        self.name@
    }

    /// The entry that the processor makes of `log` in the environment `env`:
    /// only the attributes change.
    pub open spec fn outcome(self, log: LogEntryView, env: Map<Seq<char>, Seq<char>>) -> LogEntryView {
        LogEntryView {
            attributes: apply_actions(
                log.attributes,
                self.actions(),
                env,
                self.actions().len() as int,
            ),
            ..log
        }
    }

    /// A processor that applies the given actions in order.
    pub fn new(name: String, attributes: Vec<AttributeAction>) -> (r: Result<
        ResourceProcessor,
        ProcessorError,
    >)
        ensures
            r matches Ok(p) && p.actions() == actions_view(attributes@) && p.spec_name() == name@,
    {
        Ok(ResourceProcessor { name, attributes })
    }

    /// Resolves the environment references of `value`: every `${NAME}` whose
    /// variable `env` holds is replaced by the variable's value, the others
    /// stay as they are.
    pub fn replace_env_vars(&self, value: &str, env: &StringMap) -> (s: String)
        ensures
            s@ == interpolated(value@, env@),
    {
        let chars = chars_of(value);
        let names = scan_references(&chars);
        let mut result = chars;
        let mut k: usize = 0;
        while k < names.len()
            invariant
                k <= names.len(),
                names_view(names@) == references(value@, 0),
                result@ == substituted(value@, names_view(names@), env@, k as int),
            decreases names.len() - k,
        {
            assert(names_view(names@)[k as int] == names@[k as int]@);
            let name_text = string_of(&names[k]);
            match env.get(name_text.as_str()) {
                Some(found) => {
                    let from = reference_of(&names[k]);
                    let to = chars_of(found.as_str());
                    result = replace_all(&result, &from, &to);
                },
                None => {},
            }
            k += 1;
        }
        string_of(&result)
    }

    /// Applies the configured actions to the entry's attributes, in order,
    /// and passes the entry on.
    pub fn process(&self, log: LogEntry, env: &StringMap) -> (r: Result<
        Option<LogEntry>,
        ProcessorError,
    >)
        ensures
            r matches Ok(Some(out)) && out@ == self.outcome(log@, env@),
    {
        let mut log = log;
        let ghost start = log@;
        let mut i: usize = 0;
        while i < self.attributes.len()
            invariant
                i <= self.attributes.len(),
                log@ == (LogEntryView {
                    attributes: apply_actions(start.attributes, self.actions(), env@, i as int),
                    ..start
                }),
            decreases self.attributes.len() - i,
        {
            let attr = &self.attributes[i];
            let value = self.replace_env_vars(attr.value.as_str(), env);
            match attr.action {
                ActionType::Insert => {
                    if !log.attributes.contains_key(attr.key.as_str()) {
                        log.attributes.insert(attr.key.clone(), value);
                    }
                },
                ActionType::Update => {
                    if log.attributes.contains_key(attr.key.as_str()) {
                        log.attributes.insert(attr.key.clone(), value);
                    }
                },
                ActionType::Upsert => {
                    log.attributes.insert(attr.key.clone(), value);
                },
                ActionType::Delete => {
                    log.attributes.remove(attr.key.as_str());
                },
            }
            i += 1;
        }
        Ok(Some(log))
    }

    /// The processor's name.
    pub fn name(&self) -> (n: &str)
        ensures
            n@ == self.spec_name(),
    {
        self.name.as_str()
    }
}

/// An upsert sets its attribute whether or not the entry had it before.
pub proof fn lemma_upsert_sets_value(
    attributes: Map<Seq<char>, Seq<char>>,
    key: Seq<char>,
    value: Seq<char>,
)
    ensures
        apply_action(attributes, ActionType::Upsert, key, value).dom().contains(key),
        apply_action(attributes, ActionType::Upsert, key, value)[key] == value,
{
}

/// A value that is a single reference resolves to the variable's value: for
/// a name without a closing brace that the environment holds, `${name}`
/// becomes what the environment holds for the name.
pub proof fn lemma_single_reference_resolves(name: Seq<char>, env: Map<Seq<char>, Seq<char>>)
    requires
        name.len() > 0,
        forall|i: int| 0 <= i < name.len() ==> name[i] != '}',
        env.dom().contains(name),
    ensures
        interpolated(reference_to(name), env) == env[name],
{
    let s = reference_to(name);
    let last = s.len() - 1;
    assert(s.len() == name.len() + 3);
    assert(s[0] == '$');
    assert(s[1] == '{');
    assert(s[last] == '}');
    assert forall|k: int| 2 <= k < last implies s[k] != '}' by {
        assert(s[k] == name[k - 2]);
    }
    lemma_brace_at(s, 2, last);
    assert(reference_end(s, 0) == Some(last));
    assert(s.subrange(2, last) =~= name);
    assert(references(s, last + 1) =~= Seq::<Seq<char>>::empty());
    assert(references(s, 0) =~= seq![name]);
    let names = references(s, 0);
    assert(substituted(s, names, env, 0) == s);
    assert(substituted(s, names, env, 1) == replaced(s, s, env[name]));
    assert(crate::text::occurs_at(s, s, 0)) by {
        assert(s.subrange(0, s.len() as int) =~= s);
    }
    assert(crate::text::replaced_from(s, s, env[name], s.len() as int) =~= Seq::<char>::empty());
    assert(replaced(s, s, env[name]) =~= env[name]);
}

/// Where no closing brace stands between `i` and `at` and one stands at
/// `at`, the first closing brace from `i` on is the one at `at`.
proof fn lemma_brace_at(s: Seq<char>, i: int, at: int)
    requires
        0 <= i <= at < s.len(),
        forall|k: int| i <= k < at ==> s[k] != '}',
        s[at] == '}',
    ensures
        brace_from(s, i) == at,
    decreases at - i,
{
    if i < at {
        lemma_brace_at(s, i + 1, at);
    }
}

/// An upsert whose value is a single reference sets its attribute to the
/// variable's value, whether or not the entry had the attribute before.
pub proof fn lemma_upsert_from_environment(
    attributes: Map<Seq<char>, Seq<char>>,
    key: Seq<char>,
    name: Seq<char>,
    env: Map<Seq<char>, Seq<char>>,
)
    requires
        name.len() > 0,
        forall|i: int| 0 <= i < name.len() ==> name[i] != '}',
        env.dom().contains(name),
    ensures
        ({
            let action = AttributeActionView {
                action: ActionType::Upsert,
                key,
                value: reference_to(name),
            };
            let after = apply_actions(attributes, seq![action], env, 1);
            after.dom().contains(key) && after[key] == env[name]
        }),
{
    lemma_single_reference_resolves(name, env);
    let action = AttributeActionView { action: ActionType::Upsert, key, value: reference_to(name) };
    assert(apply_actions(attributes, seq![action], env, 0) == attributes);
}

} // verus!
