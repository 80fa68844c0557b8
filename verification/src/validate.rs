//! Rule checking for the wire messages: the violation model, the shared
//! building blocks, and the final step that turns collected violations into
//! a verdict.
use vstd::prelude::*;

verus! {

/// Protobuf field types, as they appear in a field path.
#[derive(Clone, Copy, Debug, PartialEq, Eq, Structural)]
pub enum FieldType {
    Double,
    Float,
    Int64,
    Uint64,
    Int32,
    Fixed64,
    Fixed32,
    Bool,
    String,
    Group,
    Message,
    Bytes,
    Uint32,
    Enum,
    Sfixed32,
    Sfixed64,
    Sint32,
    Sint64,
}

/// Which element of a repeated or map field a path element designates.
#[derive(Debug)]
pub enum Subscript {
    Index(u64),
    BoolKey(bool),
    IntKey(i64),
    UintKey(u64),
    StringKey(String),
}

/// Mathematical value of a [`Subscript`].
pub enum SubscriptView {
    Index(u64),
    BoolKey(bool),
    IntKey(i64),
    UintKey(u64),
    StringKey(Seq<char>),
}

impl View for Subscript {
    type V = SubscriptView;

    open spec fn view(&self) -> SubscriptView {
        match self {
            Subscript::Index(i) => SubscriptView::Index(*i),
            Subscript::BoolKey(b) => SubscriptView::BoolKey(*b),
            Subscript::IntKey(i) => SubscriptView::IntKey(*i),
            Subscript::UintKey(u) => SubscriptView::UintKey(*u),
            Subscript::StringKey(s) => SubscriptView::StringKey(s@),
        }
    }
}

/// One step of a path from a message to one of its (nested) fields.
#[derive(Debug)]
pub struct FieldPathElement {
    pub field_number: Option<i32>,
    pub field_name: Option<String>,
    pub field_type: Option<FieldType>,
    pub key_type: Option<FieldType>,
    pub value_type: Option<FieldType>,
    pub subscript: Option<Subscript>,
}

/// Mathematical value of a [`FieldPathElement`].
pub struct FieldPathElementView {
    pub field_number: Option<i32>,
    pub field_name: Option<Seq<char>>,
    pub field_type: Option<FieldType>,
    pub key_type: Option<FieldType>,
    pub value_type: Option<FieldType>,
    pub subscript: Option<SubscriptView>,
}

/// The view of an optional string.
pub open spec fn opt_string_view(s: Option<String>) -> Option<Seq<char>> {
    match s {
        Some(s) => Some(s@),
        None => None,
    }
}

impl View for FieldPathElement {
    type V = FieldPathElementView;

    open spec fn view(&self) -> FieldPathElementView {
        FieldPathElementView {
            field_number: self.field_number,
            field_name: opt_string_view(self.field_name),
            field_type: self.field_type,
            key_type: self.key_type,
            value_type: self.value_type,
            subscript: match self.subscript {
                Some(s) => Some(s@),
                None => None,
            },
        }
    }
}

/// The views of a sequence of path elements.
pub open spec fn path_view(p: Seq<FieldPathElement>) -> Seq<FieldPathElementView> {
    p.map_values(|e: FieldPathElement| e@)
}

/// A broken rule: the field it concerns, the rule, and a message.
#[derive(Debug)]
pub struct Violation {
    pub field: Vec<FieldPathElement>,
    pub rule: Vec<FieldPathElement>,
    pub rule_id: String,
    pub message: String,
    pub for_key: bool,
}

/// Mathematical value of a [`Violation`].
pub struct ViolationView {
    pub field: Seq<FieldPathElementView>,
    pub rule: Seq<FieldPathElementView>,
    pub rule_id: Seq<char>,
    pub message: Seq<char>,
    pub for_key: bool,
}

impl View for Violation {
    type V = ViolationView;

    open spec fn view(&self) -> ViolationView {
        ViolationView {
            field: path_view(self.field@),
            rule: path_view(self.rule@),
            rule_id: self.rule_id@,
            message: self.message@,
            for_key: self.for_key,
        }
    }
}

/// The views of a sequence of violations.
pub open spec fn violations_view(vs: Seq<Violation>) -> Seq<ViolationView> {
    vs.map_values(|v: Violation| v@)
}

/// Why a message was refused: the broken rules, or an error met while
/// evaluating a rule.
#[derive(Debug)]
pub struct ValidationError {
    pub violations: Vec<Violation>,
    pub runtime_error: Option<String>,
}

/// Mathematical value of a [`ValidationError`].
pub struct ValidationErrorView {
    pub violations: Seq<ViolationView>,
    pub runtime_error: Option<Seq<char>>,
}

impl View for ValidationError {
    type V = ValidationErrorView;

    open spec fn view(&self) -> ValidationErrorView {
        ValidationErrorView {
            violations: violations_view(self.violations@),
            runtime_error: opt_string_view(self.runtime_error),
        }
    }
}

/// The view of the result of a validation.
pub open spec fn outcome_view(r: Result<(), ValidationError>) -> Result<(), ValidationErrorView> {
    match r {
        Ok(()) => Ok(()),
        Err(e) => Err(e@),
    }
}

/// Rule id that marks a failure to evaluate a rule, rather than a broken one.
pub open spec fn runtime_error_rule_id() -> Seq<char> {
    "__cel_runtime_error__"@
}

/// The first violation in `vs` that reports an evaluation failure.
pub open spec fn first_runtime_error(vs: Seq<ViolationView>) -> Option<ViolationView>
    decreases vs.len(),
{
    if vs.len() == 0 {
        None
    } else {
        match first_runtime_error(vs.drop_last()) {
            Some(v) => Some(v),
            None => if vs.last().rule_id == runtime_error_rule_id() {
                Some(vs.last())
            } else {
                None
            },
        }
    }
}

/// The verdict on a message whose rules produced `vs`, in order: an
/// evaluation failure wins and is reported alone; otherwise the message is
/// accepted exactly when nothing was broken.
pub open spec fn validation_outcome(vs: Seq<ViolationView>) -> Result<(), ValidationErrorView> {
    match first_runtime_error(vs) {
        Some(v) => Err(ValidationErrorView { violations: seq![], runtime_error: Some(v.message) }),
        None => if vs.len() == 0 {
            Ok(())
        } else {
            Err(ValidationErrorView { violations: vs, runtime_error: None })
        },
    }
}

/// A path element naming field `number` called `name`.
pub open spec fn element(
    number: i32,
    name: Seq<char>,
    ty: FieldType,
    subscript: Option<SubscriptView>,
) -> FieldPathElementView {
    FieldPathElementView {
        field_number: Some(number),
        field_name: Some(name),
        field_type: Some(ty),
        key_type: None,
        value_type: None,
        subscript,
    }
}

/// The violation of the `required` rule by field `number` called `name`.
pub open spec fn required_violation(number: i32, name: Seq<char>, ty: FieldType) -> ViolationView {
    ViolationView {
        field: seq![element(number, name, ty, None)],
        rule: seq![element(25, "required"@, FieldType::Bool, None)],
        rule_id: "required"@,
        message: "value is required"@,
        for_key: false,
    }
}

/// What a required string field contributes: a violation when it is empty.
pub open spec fn required_string(value: Seq<char>, number: i32, name: Seq<char>) -> Seq<ViolationView> {
    if value.len() == 0 {
        seq![required_violation(number, name, FieldType::String)]
    } else {
        seq![]
    }
}

/// What a required message field contributes: a violation when it is unset.
pub open spec fn required_message(present: bool, number: i32, name: Seq<char>) -> Seq<ViolationView> {
    if present {
        seq![]
    } else {
        seq![required_violation(number, name, FieldType::Message)]
    }
}

/// `v` seen from the enclosing message, through the field `e`.
pub open spec fn with_prefix(v: ViolationView, e: FieldPathElementView) -> ViolationView {
    ViolationView {
        field: seq![e] + v.field,
        rule: v.rule,
        rule_id: v.rule_id,
        message: v.message,
        for_key: v.for_key,
    }
}

/// The violations of a nested message, seen through the field `e`. Only the
/// broken rules carry over; a nested evaluation failure does not.
pub open spec fn prefixed(outcome: Result<(), ValidationErrorView>, e: FieldPathElementView) -> Seq<ViolationView> {
    match outcome {
        Ok(()) => seq![],
        Err(err) => err.violations.map_values(|v: ViolationView| with_prefix(v, e)),
    }
}

/// Whether every violation in `vs` is of the `required` rule.
pub open spec fn only_required(vs: Seq<ViolationView>) -> bool {
    forall|i: int| 0 <= i < vs.len() ==> (#[trigger] vs[i]).rule_id == "required"@
}

/// Violations of the `required` rule alone never hold an evaluation
/// failure, so they are reported as they are, and a message that breaks
/// none of them is accepted.
pub proof fn lemma_outcome_of_required(vs: Seq<ViolationView>)
    requires
        only_required(vs),
    ensures
        validation_outcome(vs) == if vs.len() == 0 {
            Ok::<(), ValidationErrorView>(())
        } else {
            Err(ValidationErrorView { violations: vs, runtime_error: None })
        },
    decreases vs.len(),
{
    reveal_strlit("required");
    reveal_strlit("__cel_runtime_error__");
    lemma_no_runtime_error(vs);
}

proof fn lemma_no_runtime_error(vs: Seq<ViolationView>)
    requires
        only_required(vs),
    ensures
        first_runtime_error(vs) is None,
    decreases vs.len(),
{
    reveal_strlit("required");
    reveal_strlit("__cel_runtime_error__");
    if vs.len() > 0 {
        assert(only_required(vs.drop_last()));
        lemma_no_runtime_error(vs.drop_last());
        assert(vs.last().rule_id == "required"@);
        assert("required"@.len() != runtime_error_rule_id().len());
    }
}

/// The `required` checks of string and message fields break only that rule,
/// and a nested message whose rules are all `required` passes on only
/// such violations, one for each of its own.
pub proof fn lemma_required_parts(value: Seq<char>, present: bool, number: i32, name: Seq<char>)
    ensures
        only_required(required_string(value, number, name)),
        required_string(value, number, name).len() == if value.len() == 0 { 1int } else { 0int },
        only_required(required_message(present, number, name)),
        required_message(present, number, name).len() == if present { 0int } else { 1int },
{
}

/// A nested message whose violations are all of the `required` rule adds
/// exactly its own violations, each still of that rule.
pub proof fn lemma_nested_required<M: Validate>(value: Option<M>, number: i32, name: Seq<char>)
    requires
        value matches Some(m) ==> only_required(m.violations()),
    ensures
        only_required(nested(value, number, name)),
        nested(value, number, name).len() == match value {
            Some(m) => m.violations().len(),
            None => 0,
        },
{
    if let Some(m) = value {
        lemma_outcome_of_required(m.violations());
    }
}

/// Concatenated violations of the `required` rule are still only of it.
pub proof fn lemma_only_required_add(a: Seq<ViolationView>, b: Seq<ViolationView>)
    requires
        only_required(a),
        only_required(b),
    ensures
        only_required(a + b),
{
    assert forall|i: int| 0 <= i < (a + b).len() implies (#[trigger] (a + b)[i]).rule_id == "required"@ by {
        if i >= a.len() {
            assert((a + b)[i] == b[i - a.len()]);
        }
    }
}

/// A message whose fields are checked against its rules.
pub trait Validate {
    /// The violations that the message's rules produce, in rule order.
    spec fn violations(&self) -> Seq<ViolationView>;

    /// Checks the message against its rules.
    fn validate(&self) -> (r: Result<(), ValidationError>)
        ensures
            outcome_view(r) == validation_outcome(self.violations()),
    ;
}

/// What an optional nested message contributes, through field `number`.
pub open spec fn nested<M: Validate>(value: Option<M>, number: i32, name: Seq<char>) -> Seq<ViolationView> {
    match value {
        Some(m) => prefixed(validation_outcome(m.violations()), element(number, name, FieldType::Message, None)),
        None => seq![],
    }
}

/// What the elements of a repeated message field contribute, element by
/// element, each through its index.
pub open spec fn repeated<M: Validate>(elems: Seq<M>, number: i32, name: Seq<char>) -> Seq<ViolationView>
    decreases elems.len(),
{
    if elems.len() == 0 {
        seq![]
    } else {
        repeated(elems.drop_last(), number, name) + prefixed(
            validation_outcome(elems.last().violations()),
            element(number, name, FieldType::Message, Some(SubscriptView::Index((elems.len() - 1) as u64))),
        )
    }
}

proof fn lemma_views_remove_first(s: Seq<Violation>)
    requires
        s.len() > 0,
    ensures
        violations_view(s.remove(0)) == violations_view(s).drop_first(),
{
    assert(violations_view(s.remove(0)) =~= violations_view(s).drop_first());
}

/// A repeated field whose elements break no rule adds no violation.
pub proof fn lemma_repeated_clean<M: Validate>(elems: Seq<M>, number: i32, name: Seq<char>)
    requires
        forall|i: int| 0 <= i < elems.len() ==> (#[trigger] elems[i]).violations().len() == 0,
    ensures
        repeated(elems, number, name) == Seq::<ViolationView>::empty(),
    decreases elems.len(),
{
    if elems.len() > 0 {
        let rest = elems.drop_last();
        assert forall|i: int| 0 <= i < rest.len() implies (#[trigger] rest[i]).violations().len() == 0 by {
            assert(rest[i] == elems[i]);
        }
        lemma_repeated_clean(rest, number, name);
        assert(elems.last().violations() =~= Seq::<ViolationView>::empty());
        assert(first_runtime_error(Seq::<ViolationView>::empty()) is None);
        assert(repeated(elems, number, name) =~= Seq::<ViolationView>::empty());
    }
}

/// Builds the path element for field `number` called `name`.
pub fn new_element(number: i32, name: &str, ty: FieldType, index: Option<u64>) -> (e: FieldPathElement)
    ensures
        e@ == element(
            number,
            name@,
            ty,
            match index {
                Some(i) => Some(SubscriptView::Index(i)),
                None => None,
            },
        ),
{
    FieldPathElement {
        field_number: Some(number),
        field_name: Some(String::from_str(name)),
        field_type: Some(ty),
        key_type: None,
        value_type: None,
        subscript: match index {
            Some(i) => Some(Subscript::Index(i)),
            None => None,
        },
    }
}

/// Builds the violation of the `required` rule by field `number`.
pub fn new_required_violation(number: i32, name: &str, ty: FieldType) -> (v: Violation)
    ensures
        v@ == required_violation(number, name@, ty),
{
    let mut field = Vec::new();
    field.push(new_element(number, name, ty, None));
    let mut rule = Vec::new();
    rule.push(new_element(25, "required", FieldType::Bool, None));
    let v = Violation {
        field,
        rule,
        rule_id: String::from_str("required"),
        message: String::from_str("value is required"),
        for_key: false,
    };
    assert(v@.field =~= seq![element(number, name@, ty, None)]);
    assert(v@.rule =~= seq![element(25, "required"@, FieldType::Bool, None)]);
    v
}

/// Records a violation when the required string `value` is empty.
pub fn check_required_string(vs: &mut Vec<Violation>, value: &String, number: i32, name: &str)
    ensures
        violations_view(final(vs)@) == violations_view(old(vs)@) + required_string(value@, number, name@),
{
    if value.as_str().is_empty() {
        vs.push(new_required_violation(number, name, FieldType::String));
    }
    assert(violations_view(vs@) =~= violations_view(old(vs)@) + required_string(value@, number, name@));
}

/// Records a violation when the required message field is unset.
pub fn check_required_message<M>(vs: &mut Vec<Violation>, value: &Option<M>, number: i32, name: &str)
    ensures
        violations_view(final(vs)@) == violations_view(old(vs)@) + required_message(value is Some, number, name@),
{
    if value.is_none() {
        vs.push(new_required_violation(number, name, FieldType::Message));
    }
    assert(violations_view(vs@) =~= violations_view(old(vs)@) + required_message(value is Some, number, name@));
}

/// Appends the violations of a nested message, each seen through field
/// `number` (and element `index` of it, for a repeated field).
pub fn append_prefixed(vs: &mut Vec<Violation>, sub: ValidationError, number: i32, name: &str, index: Option<u64>)
    ensures
        violations_view(final(vs)@) == violations_view(old(vs)@) + sub@.violations.map_values(
            |v: ViolationView|
                with_prefix(
                    v,
                    element(
                        number,
                        name@,
                        FieldType::Message,
                        match index {
                            Some(i) => Some(SubscriptView::Index(i)),
                            None => None,
                        },
                    ),
                ),
        ),
{
    let ghost e = element(
        number,
        name@,
        FieldType::Message,
        match index {
            Some(i) => Some(SubscriptView::Index(i)),
            None => None,
        },
    );
    let ghost subs = sub@.violations;
    let mut rest = sub.violations;
    let ghost total = rest.len();
    let mut k: usize = 0;
    while rest.len() > 0
        invariant
            e == element(
                number,
                name@,
                FieldType::Message,
                match index {
                    Some(i) => Some(SubscriptView::Index(i)),
                    None => None,
                },
            ),
            k + rest.len() == total,
            total == subs.len(),
            violations_view(rest@) == subs.skip(k as int),
            violations_view(vs@) == violations_view(old(vs)@) + subs.take(k as int).map_values(
                |v: ViolationView| with_prefix(v, e),
            ),
        decreases rest.len(),
    {
        let ghost prev = rest@;
        let v = rest.remove(0);
        assert(v@ == subs[k as int]) by {
            assert(violations_view(prev)[0] == v@);
        }
        let ne = new_element(number, name, FieldType::Message, index);
        let ghost ne_view = ne@;
        let mut field = Vec::new();
        field.push(ne);
        let ghost head = field@;
        let mut tail = v.field;
        let ghost tail_seq = tail@;
        field.append(&mut tail);
        assert(field@ =~= head + tail_seq);
        assert(path_view(field@) =~= seq![e] + path_view(tail_seq)) by {
            assert(head =~= seq![head[0]]);
            assert(head[0]@ == ne_view);
            assert(ne_view == e);
            assert forall|j: int| 0 <= j < field@.len() implies #[trigger] path_view(field@)[j] == (seq![e]
                + path_view(tail_seq))[j] by {
                if j > 0 {
                    assert(field@[j] == tail_seq[j - 1]);
                }
            }
        }
        let nv = Violation { field, rule: v.rule, rule_id: v.rule_id, message: v.message, for_key: v.for_key };
        assert(nv@ == with_prefix(v@, e));
        let ghost vs_before = vs@;
        vs.push(nv);
        proof {
            assert(violations_view(vs@) =~= violations_view(vs_before).push(with_prefix(v@, e)));
            assert(subs.take(k + 1) =~= subs.take(k as int).push(subs[k as int]));
            lemma_views_remove_first(prev);
            assert(subs.skip(k as int).drop_first() =~= subs.skip(k + 1));
        }
        k = k + 1;
        assert(violations_view(vs@) =~= violations_view(old(vs)@) + subs.take(k as int).map_values(
            |v: ViolationView| with_prefix(v, e),
        ));
    }
    assert(subs.take(k as int) =~= subs);
}

/// Checks an optional nested message and records its violations.
pub fn check_nested<M: Validate>(vs: &mut Vec<Violation>, value: &Option<M>, number: i32, name: &str)
    ensures
        violations_view(final(vs)@) == violations_view(old(vs)@) + nested(*value, number, name@),
{
    match value {
        Some(inner) => {
            match inner.validate() {
                Ok(()) => {
                    assert(violations_view(vs@) =~= violations_view(old(vs)@) + nested(*value, number, name@));
                },
                Err(sub) => {
                    append_prefixed(vs, sub, number, name, None);
                },
            }
        },
        None => {
            assert(violations_view(vs@) =~= violations_view(old(vs)@) + nested(*value, number, name@));
        },
    }
}

/// Checks one member of a group of alternative fields and records its
/// violations, seen through field `number`.
pub fn check_member<M: Validate>(vs: &mut Vec<Violation>, member: &M, number: i32, name: &str)
    ensures
        violations_view(final(vs)@) == violations_view(old(vs)@) + prefixed(
            validation_outcome(member.violations()),
            element(number, name@, FieldType::Message, None),
        ),
{
    match member.validate() {
        Ok(()) => {
            assert(violations_view(vs@) =~= violations_view(old(vs)@) + prefixed(
                validation_outcome(member.violations()),
                element(number, name@, FieldType::Message, None),
            ));
        },
        Err(sub) => {
            append_prefixed(vs, sub, number, name, None);
        },
    }
}

/// Checks every element of a repeated message field, in order, and records
/// their violations.
pub fn check_repeated<M: Validate>(vs: &mut Vec<Violation>, elems: &Vec<M>, number: i32, name: &str)
    ensures
        violations_view(final(vs)@) == violations_view(old(vs)@) + repeated(elems@, number, name@),
{
    let n = elems.len();
    let mut i: usize = 0;
    while i < n
        invariant
            n == elems.len(),
            i <= n,
            violations_view(vs@) == violations_view(old(vs)@) + repeated(elems@.take(i as int), number, name@),
        decreases n - i,
    {
        let ghost before = violations_view(vs@);
        match elems[i].validate() {
            Ok(()) => {},
            Err(sub) => {
                append_prefixed(vs, sub, number, name, Some(i as u64));
            },
        }
        proof {
            let t = elems@.take(i + 1);
            assert(t.drop_last() =~= elems@.take(i as int));
            assert(t.last() == elems@[i as int]);
        }
        i = i + 1;
        assert(violations_view(vs@) =~= violations_view(old(vs)@) + repeated(elems@.take(i as int), number, name@));
    }
    assert(elems@.take(n as int) =~= elems@);
}

/// Turns the violations collected for a message into its verdict.
pub fn finish(violations: Vec<Violation>) -> (r: Result<(), ValidationError>)
    ensures
        outcome_view(r) == validation_outcome(violations_view(violations@)),
{
    let ghost all = violations_view(violations@);
    let runtime_id = String::from_str("__cel_runtime_error__");
    let mut runtime: Option<String> = None;
    let mut rest: Vec<Violation> = Vec::new();
    let mut remaining = violations;
    let ghost total = remaining.len();
    let mut k: usize = 0;
    while remaining.len() > 0
        invariant
            runtime_id@ == runtime_error_rule_id(),
            k + remaining.len() == total,
            total == all.len(),
            violations_view(remaining@) == all.skip(k as int),
            match first_runtime_error(all.take(k as int)) {
                Some(v) => runtime matches Some(m) && m@ == v.message,
                None => runtime is None && violations_view(rest@) == all.take(k as int),
            },
        decreases remaining.len(),
    {
        let ghost prev = remaining@;
        let v = remaining.remove(0);
        assert(v@ == all[k as int]) by {
            assert(violations_view(prev)[0] == v@);
        }
        proof {
            let t = all.take(k + 1);
            assert(t.drop_last() =~= all.take(k as int));
            assert(t.last() == all[k as int]);
        }
        if runtime.is_none() && v.rule_id == runtime_id {
            runtime = Some(v.message);
        } else {
            let ghost prev_rest = rest@;
            rest.push(v);
            assert(violations_view(rest@) =~= violations_view(prev_rest).push(all[k as int]));
        }
        proof {
            lemma_views_remove_first(prev);
            assert(all.skip(k as int).drop_first() =~= all.skip(k + 1));
        }
        k = k + 1;
    }
    assert(all.take(k as int) =~= all);
    match runtime {
        Some(m) => {
            let none: Vec<Violation> = Vec::new();
            assert(violations_view(none@) =~= seq![]);
            Err(ValidationError { violations: none, runtime_error: Some(m) })
        },
        None => {
            if rest.len() == 0 {
                Ok(())
            } else {
                Err(ValidationError { violations: rest, runtime_error: None })
            }
        },
    }
}

} // verus!
