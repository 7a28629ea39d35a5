//! The transform processor: masks, extracts from and renames fields.

use crate::collector::config::{steps_view, TransformAction, TransformActionView, TransformType};
use crate::collector::entry::{LogEntry, LogEntryView};
use crate::collector::filter::{
    all_buildable,
    first_unbuildable,
    lemma_first_unbuildable,
    ProcessorError,
    Rule,
};
use crate::collector::pattern::{
    capture,
    compile,
    group_names,
    regex_capture,
    regex_group_names,
    regex_replaced,
    replace_matches,
    Pattern,
};
use crate::string_map::StringMap;
use crate::text::str_eq;
use vstd::prelude::*;

verus! {

/// The regular expression that a transformation brings with it: mask and
/// extract transformations with a `pattern` parameter have one.
pub open spec fn pattern_of(t: TransformActionView) -> Option<Seq<char>> {
    if (t.transform_type == TransformType::Extract || t.transform_type == TransformType::Mask)
        && t.parameters.dom().contains("pattern"@) {
        Some(t.parameters["pattern"@])
    } else {
        None
    }
}

/// What has to compile for the transformations to be usable, one rule per
/// transformation.
pub open spec fn required_patterns(transforms: Seq<TransformActionView>) -> Seq<Rule> {
    Seq::new(
        transforms.len(),
        |i: int|
            match pattern_of(transforms[i]) {
                Some(p) => Rule::Pattern(p),
                None => Rule::Substring(Seq::empty()),
            },
    )
}

/// The text that replaces a masked match when none is configured.
pub open spec fn default_mask() -> Seq<char> {
    "*****"@
}

/// A masked value: every match of the step's regular expression is replaced
/// by the `replacement` parameter, or by five asterisks where there is none.
/// Without a regular expression the value stays as it is.
pub open spec fn masked(
    pattern: Option<Seq<char>>,
    value: Seq<char>,
    parameters: Map<Seq<char>, Seq<char>>,
) -> Seq<char> {
    match pattern {
        Some(p) => regex_replaced(
            p,
            value,
            if parameters.dom().contains("replacement"@) {
                parameters["replacement"@]
            } else {
                default_mask()
            },
        ),
        None => value,
    }
}

/// The attributes after the first `n` capture groups have been looked at: each
/// named group that took part in the first match of `pattern` in `text` is set
/// as an attribute under its name.
pub open spec fn with_groups(
    attributes: Map<Seq<char>, Seq<char>>,
    names: Seq<Option<Seq<char>>>,
    pattern: Seq<char>,
    text: Seq<char>,
    n: int,
) -> Map<Seq<char>, Seq<char>>
    decreases n,
{
    if n <= 0 || n > names.len() {
        attributes
    } else {
        let before = with_groups(attributes, names, pattern, text, n - 1);
        match names[n - 1] {
            Some(name) => match regex_capture(pattern, text, name) {
                Some(found) => before.insert(name, found),
                None => before,
            },
            None => before,
        }
    }
}

/// The value of a field of an entry: the message, or an attribute.
pub open spec fn field_value(entry: LogEntryView, field: Seq<char>) -> Option<Seq<char>> {
    if field == "message"@ {
        Some(entry.message)
    } else if entry.attributes.dom().contains(field) {
        Some(entry.attributes[field])
    } else {
        None
    }
}

/// An entry with one of its fields masked. A field that the entry lacks
/// changes nothing.
pub open spec fn mask_applied(
    entry: LogEntryView,
    field: Seq<char>,
    pattern: Option<Seq<char>>,
    parameters: Map<Seq<char>, Seq<char>>,
) -> LogEntryView {
    if field == "message"@ {
        LogEntryView { message: masked(pattern, entry.message, parameters), ..entry }
    } else if entry.attributes.dom().contains(field) {
        LogEntryView {
            attributes: entry.attributes.insert(
                field,
                masked(pattern, entry.attributes[field], parameters),
            ),
            ..entry
        }
    } else {
        entry
    }
}

/// An entry with the named groups that the field's regular expression finds
/// in the field added as attributes. Without a regular expression, or where
/// the entry lacks the field, nothing changes.
pub open spec fn extract_applied(
    entry: LogEntryView,
    field: Seq<char>,
    pattern: Option<Seq<char>>,
) -> LogEntryView {
    match (pattern, field_value(entry, field)) {
        (Some(p), Some(text)) => LogEntryView {
            attributes: with_groups(
                entry.attributes,
                regex_group_names(p),
                p,
                text,
                regex_group_names(p).len() as int,
            ),
            ..entry
        },
        _ => entry,
    }
}

/// An entry with the attribute `field` moved to the key that the `new_name`
/// parameter gives. Without that parameter, or where the entry lacks the
/// attribute, nothing changes.
pub open spec fn rename_applied(
    entry: LogEntryView,
    field: Seq<char>,
    parameters: Map<Seq<char>, Seq<char>>,
) -> LogEntryView {
    if parameters.dom().contains("new_name"@) && entry.attributes.dom().contains(field) {
        LogEntryView {
            attributes: entry.attributes.remove(field).insert(
                parameters["new_name"@],
                entry.attributes[field],
            ),
            ..entry
        }
    } else {
        entry
    }
}

/// What one transformation makes of an entry, given the regular expression
/// that it brings with it. A convert transformation changes nothing.
pub open spec fn apply_transform(
    entry: LogEntryView,
    t: TransformActionView,
    pattern: Option<Seq<char>>,
) -> LogEntryView {
    match t.transform_type {
        TransformType::Mask => mask_applied(entry, t.field, pattern, t.parameters),
        TransformType::Extract => extract_applied(entry, t.field, pattern),
        TransformType::Rename => rename_applied(entry, t.field, t.parameters),
        TransformType::Convert => entry,
    }
}

/// The entry after the first `n` transformations, applied in order. Each
/// mask and each extract uses the regular expression of its own `pattern`
/// parameter.
pub open spec fn apply_transforms(
    entry: LogEntryView,
    transforms: Seq<TransformActionView>,
    n: int,
) -> LogEntryView
    decreases n,
{
    if n <= 0 || n > transforms.len() {
        entry
    } else {
        apply_transform(
            apply_transforms(entry, transforms, n - 1),
            transforms[n - 1],
            pattern_of(transforms[n - 1]),
        )
    }
}

/// The pattern text of an optional compiled expression.
pub open spec fn compiled_source(compiled: Option<Pattern>) -> Option<Seq<char>> {
    match compiled {
        Some(p) => Some(p.source()),
        None => None,
    }
}

/// Rewrites fields of every entry.
pub struct TransformProcessor {
    name: String,
    transforms: Vec<TransformAction>,
    regexes: Vec<Option<Pattern>>,
}

impl TransformProcessor {
    #[verifier::type_invariant]
    spec fn well_formed(self) -> bool {
        &&& self.regexes@.len() == self.transforms@.len()
        &&& forall|i: int|
            0 <= i < self.regexes@.len() ==> compiled_source(#[trigger] self.regexes@[i])
                == pattern_of(self.transforms@[i]@)
    }

    /// The configured transformations, in order.
    pub closed spec fn steps(self) -> Seq<TransformActionView> {
        steps_view(self.transforms@)
    }

    /// The processor's name.
    pub closed spec fn spec_name(self) -> Seq<char> {
        self.name@
    }

    /// The entry that the processor makes of `log`.
    pub open spec fn outcome(self, log: LogEntryView) -> LogEntryView {
        apply_transforms(log, self.steps(), self.steps().len() as int)
    }

    /// Builds the processor and compiles the regular expression of every mask
    /// and extract transformation that has a `pattern` parameter. The first
    /// pattern that does not compile is reported.
    pub fn new(name: String, transforms: Vec<TransformAction>) -> (r: Result<
        TransformProcessor,
        ProcessorError,
    >)
        ensures
            match r {
                Ok(p) => {
                    &&& all_buildable(required_patterns(steps_view(transforms@)))
                    &&& p.steps() == steps_view(transforms@)
                    &&& p.spec_name() == name@
                },
                Err(ProcessorError::InvalidPattern { pattern }) => {
                    let needed = required_patterns(steps_view(transforms@));
                    &&& !all_buildable(needed)
                    &&& first_unbuildable(needed) < needed.len()
                    &&& pattern@ == needed[first_unbuildable(needed)].pattern()
                },
            },
    {
        let mut regexes: Vec<Option<Pattern>> = Vec::new();
        let ghost needed = required_patterns(steps_view(transforms@));
        proof {
            lemma_first_unbuildable(needed);
        }
        let mut i: usize = 0;
        while i < transforms.len()
            invariant
                i <= transforms.len(),
                needed == required_patterns(steps_view(transforms@)),
                forall|j: int| 0 <= j < i ==> (#[trigger] needed[j]).buildable(),
                0 <= first_unbuildable(needed) <= needed.len(),
                forall|j: int| 0 <= j < first_unbuildable(needed) ==> (#[trigger] needed[j]).buildable(),
                first_unbuildable(needed) < needed.len() ==> !needed[first_unbuildable(
                    needed,
                )].buildable(),
                regexes@.len() == i,
                forall|j: int|
                    0 <= j < i ==> compiled_source(#[trigger] regexes@[j]) == pattern_of(
                        transforms@[j]@,
                    ),
            decreases transforms.len() - i,
        {
            let transform = &transforms[i];
            assert(steps_view(transforms@)[i as int] == transform@);
            let mut compiled: Option<Pattern> = None;
            if transform.transform_type == TransformType::Extract || transform.transform_type
                == TransformType::Mask {
                if let Some(pattern) = transform.parameters.get("pattern") {
                    assert(pattern_of(transform@) == Some(pattern@));
                    match compile(pattern.as_str()) {
                        Ok(regex) => {
                            compiled = Some(regex);
                        },
                        Err(_) => {
                            assert(!needed[i as int].buildable());
                            assert(first_unbuildable(needed) == i);
                            return Err(ProcessorError::InvalidPattern { pattern: pattern.clone() });
                        },
                    }
                }
            }
            assert(needed[i as int].buildable());
            regexes.push(compiled);
            i += 1;
        }
        Ok(TransformProcessor { name, transforms, regexes })
    }

    /// Masks a value with the expression of a step.
    fn apply_mask(pattern: &Option<Pattern>, value: &str, parameters: &StringMap) -> (s: String)
        ensures
            s@ == masked(compiled_source(*pattern), value@, parameters@),
    {
        match pattern {
            Some(regex) => {
                match parameters.get("replacement") {
                    Some(replacement) => replace_matches(regex, value, replacement.as_str()),
                    None => replace_matches(regex, value, "*****"),
                }
            },
            None => value.to_string(),
        }
    }

    /// Adds the named groups of the first match in the field as attributes.
    fn apply_extract(pattern: &Option<Pattern>, log: &mut LogEntry, field: &str)
        ensures
            final(log)@ == extract_applied(old(log)@, field@, compiled_source(*pattern)),
    {
        let ghost start = log@;
        if let Some(regex) = pattern {
            let value: Option<String> = if str_eq(field, "message") {
                Some(log.message.clone())
            } else {
                match log.attributes.get(field) {
                    Some(v) => Some(v.clone()),
                    None => None,
                }
            };
            if let Some(text) = value {
                assert(field_value(start, field@) == Some(text@));
                let names = group_names(regex);
                let ghost p = regex.source();
                let mut i: usize = 0;
                while i < names.len()
                    invariant
                        i <= names.len(),
                        p == regex.source(),
                        names@.len() == regex_group_names(p).len(),
                        forall|k: int|
                            0 <= k < names@.len() ==> crate::collector::entry::option_view(
                                #[trigger] names@[k],
                            ) == regex_group_names(p)[k],
                        log@ == (LogEntryView {
                            attributes: with_groups(
                                start.attributes,
                                regex_group_names(p),
                                p,
                                text@,
                                i as int,
                            ),
                            ..start
                        }),
                    decreases names.len() - i,
                {
                    assert(crate::collector::entry::option_view(names@[i as int])
                        == regex_group_names(p)[i as int]);
                    if let Some(name) = &names[i] {
                        if let Some(found) = capture(regex, text.as_str(), name.as_str()) {
                            log.attributes.insert(name.clone(), found);
                        }
                    }
                    i += 1;
                }
            }
        }
    }

    /// Moves an attribute to the key that the `new_name` parameter gives.
    fn apply_rename(log: &mut LogEntry, field: &str, parameters: &StringMap)
        ensures
            final(log)@ == rename_applied(old(log)@, field@, parameters@),
    {
        let ghost start = log@;
        if let Some(new_name) = parameters.get("new_name") {
            if let Some(value) = log.attributes.remove(field) {
                log.attributes.insert(new_name.clone(), value);
            } else {
                assert(log.attributes@ =~= start.attributes);
            }
        }
    }

    /// Applies the configured transformations in order and passes the entry
    /// on.
    pub fn process(&self, log: LogEntry) -> (r: Result<Option<LogEntry>, ProcessorError>)
        ensures
            r matches Ok(Some(out)) && out@ == self.outcome(log@),
    {
        proof {
            use_type_invariant(self);
        }
        let mut log = log;
        let ghost start = log@;
        let mut i: usize = 0;
        while i < self.transforms.len()
            invariant
                i <= self.transforms.len(),
                self.regexes@.len() == self.transforms@.len(),
                forall|k: int|
                    0 <= k < self.regexes@.len() ==> compiled_source(#[trigger] self.regexes@[k])
                        == pattern_of(self.transforms@[k]@),
                log@ == apply_transforms(start, self.steps(), i as int),
            decreases self.transforms.len() - i,
        {
            let transform = &self.transforms[i];
            let pattern = &self.regexes[i];
            let ghost before = log@;
            assert(compiled_source(*pattern) == pattern_of(transform@));
            match transform.transform_type {
                TransformType::Mask => {
                    if str_eq(transform.field.as_str(), "message") {
                        log.message =
                        Self::apply_mask(pattern, log.message.as_str(), &transform.parameters);
                    } else {
                        let masked_value = match log.attributes.get(transform.field.as_str()) {
                            Some(value) => Some(
                                Self::apply_mask(pattern, value.as_str(), &transform.parameters),
                            ),
                            None => None,
                        };
                        if let Some(text) = masked_value {
                            log.attributes.insert(transform.field.clone(), text);
                        }
                    }
                },
                TransformType::Extract => {
                    Self::apply_extract(pattern, &mut log, transform.field.as_str());
                },
                TransformType::Rename => {
                    Self::apply_rename(&mut log, transform.field.as_str(), &transform.parameters);
                },
                TransformType::Convert => {},
            }
            assert(self.steps()[i as int] == transform@);
            assert(log@ == apply_transform(before, transform@, pattern_of(transform@)));
            i += 1;
        }
        Ok(Some(log))
    }

    /// The processor's name.
    pub fn name(&self) -> (n: &str)
        ensures
            n@ == self.spec_name(),
    {
        self.name.as_str()
    }
}

/// Each mask uses its own regular expression: after two masks of the
/// message, the message is the text that the second mask, with its pattern
/// and replacement, makes of what the first mask, with its own, made of it.
pub proof fn lemma_masks_use_their_own_patterns(
    entry: LogEntryView,
    first: TransformActionView,
    second: TransformActionView,
)
    requires
        first.transform_type == TransformType::Mask,
        second.transform_type == TransformType::Mask,
        first.field == "message"@,
        second.field == "message"@,
    ensures
        apply_transforms(entry, seq![first, second], 2).message == masked(
            pattern_of(second),
            masked(pattern_of(first), entry.message, first.parameters),
            second.parameters,
        ),
{
    let steps = seq![first, second];
    assert(apply_transforms(entry, steps, 0) == entry);
    assert(apply_transforms(entry, steps, 1) == apply_transform(
        apply_transforms(entry, steps, 0),
        steps[0],
        pattern_of(steps[0]),
    ));
    assert(apply_transforms(entry, steps, 2) == apply_transform(
        apply_transforms(entry, steps, 1),
        steps[1],
        pattern_of(steps[1]),
    ));
}

} // verus!
