//! Conversion between the caller's values and the values of the virtual
//! machine, on both sides of an invocation.

use vstd::prelude::*;
use crate::error::{BridgeError, Side};
use crate::kind::{ValueKind, WasmFunctionTy};
use crate::value::{conforms, HostValue, Value};

verus! {

/// What becomes of the argument at one position of a call: a parameter kind
/// that no argument can be converted to is refused for its kind; otherwise the
/// argument has to be there and be a number, and is converted to the kind.
pub open spec fn marshal_argument_spec(kind: ValueKind, args: Seq<HostValue>, position: int) -> Result<
    Value,
    BridgeError,
> {
    if !kind.is_parameter_kind() {
        Err(BridgeError::UnsupportedType { kind, side: Side::Parameter, position: position as usize })
    } else if 0 <= position < args.len() && args[position].is_number() {
        Ok(args[position].convert(kind).unwrap())
    } else {
        Err(BridgeError::ArgumentType { position: position as usize })
    }
}

/// Whether `p` is the first position whose argument cannot be converted.
pub open spec fn is_first_failure(params: Seq<ValueKind>, args: Seq<HostValue>, p: int) -> bool {
    &&& 0 <= p < params.len()
    &&& marshal_argument_spec(params[p], args, p) is Err
    &&& forall|j: int| 0 <= j < p ==> (#[trigger] marshal_argument_spec(params[j], args, j)) is Ok
}

/// The arguments of a call, converted position by position to the parameter
/// kinds. The first position that fails decides the error; arguments beyond
/// the last parameter are not looked at.
pub open spec fn marshal_arguments_spec(params: Seq<ValueKind>, args: Seq<HostValue>) -> Result<
    Seq<Value>,
    BridgeError,
> {
    if exists|p: int| is_first_failure(params, args, p) {
        let p = choose|p: int| is_first_failure(params, args, p);
        Err(marshal_argument_spec(params[p], args, p)->Err_0)
    } else {
        Ok(Seq::new(params.len(), |i: int| marshal_argument_spec(params[i], args, i)->Ok_0))
    }
}

/// Whether `p` is the first position of a result kind that cannot be handed
/// back to the caller.
pub open spec fn is_first_unsupported_result(results: Seq<ValueKind>, p: int) -> bool {
    &&& 0 <= p < results.len()
    &&& !results[p].is_result_kind()
    &&& forall|j: int| 0 <= j < p ==> (#[trigger] results[j]).is_result_kind()
}

/// The buffer that an invocation writes its results into: one zero per
/// result kind. The first kind that cannot be handed back is refused.
pub open spec fn result_buffer_spec(results: Seq<ValueKind>) -> Result<Seq<Value>, BridgeError> {
    if exists|p: int| is_first_unsupported_result(results, p) {
        let p = choose|p: int| is_first_unsupported_result(results, p);
        Err(BridgeError::UnsupportedType { kind: results[p], side: Side::Result, position: p as usize })
    } else {
        Ok(Seq::new(results.len(), |i: int| Value::zero(results[i]).unwrap()))
    }
}

/// All that is decided before the callee runs: the result buffer first, then
/// the converted arguments. Gives the arguments and the buffer, in this order.
pub open spec fn prepare_spec(params: Seq<ValueKind>, results: Seq<ValueKind>, args: Seq<HostValue>) -> Result<
    (Seq<Value>, Seq<Value>),
    BridgeError,
> {
    match result_buffer_spec(results) {
        Err(e) => Err(e),
        Ok(buffer) => match marshal_arguments_spec(params, args) {
            Err(e) => Err(e),
            Ok(arguments) => Ok((arguments, buffer)),
        },
    }
}

/// What the caller gets for the values that the callee returned: nothing for
/// no value, the value for one, and an error for more than one.
pub open spec fn settle_spec(values: Seq<Value>) -> Result<Option<Value>, BridgeError> {
    if values.len() > 1 {
        Err(BridgeError::MultiResultUnsupported)
    } else if values.len() == 1 {
        Ok(Some(values[0]))
    } else {
        Ok(None)
    }
}

/// Whether an invocation can have ended so: with an error of the engine,
/// which the bridge knows by its text, or with one value of each result kind.
pub open spec fn admissible(results: Seq<ValueKind>, outcome: Result<Seq<Value>, String>) -> bool {
    outcome matches Ok(values) ==> conforms(values, results)
}

/// The answer of a call, from the signature, the caller's arguments and the
/// way the invocation ended. Where the preparation fails the callee does not
/// run, and the answer is that failure whatever `outcome` holds.
pub open spec fn answer_spec(
    params: Seq<ValueKind>,
    results: Seq<ValueKind>,
    args: Seq<HostValue>,
    outcome: Result<Seq<Value>, String>,
) -> Result<Option<Value>, BridgeError> {
    match prepare_spec(params, results, args) {
        Err(e) => Err(e),
        Ok(_) => match outcome {
            Err(text) => Err(BridgeError::Invocation(text)),
            Ok(values) => settle_spec(values),
        },
    }
}

/// Converts the argument at one position of a call.
pub fn marshal_argument(kind: ValueKind, args: &Vec<HostValue>, position: usize) -> (r: Result<
    Value,
    BridgeError,
>)
    ensures
        r == marshal_argument_spec(kind, args@, position as int),
{
    if !kind.is_parameter_kind() {
        return Err(BridgeError::UnsupportedType { kind, side: Side::Parameter, position });
    }
    if position < args.len() {
        match args[position].convert(kind) {
            Some(value) => Ok(value),
            None => Err(BridgeError::ArgumentType { position }),
        }
    } else {
        Err(BridgeError::ArgumentType { position })
    }
}

/// Converts the arguments of a call to the parameter kinds.
pub fn marshal_arguments(params: &Vec<ValueKind>, args: &Vec<HostValue>) -> (r: Result<
    Vec<Value>,
    BridgeError,
>)
    ensures
        match r {
            Ok(values) => marshal_arguments_spec(params@, args@) == Ok::<Seq<Value>, BridgeError>(values@),
            Err(e) => marshal_arguments_spec(params@, args@) == Err::<Seq<Value>, BridgeError>(e),
        },
        r matches Ok(values) ==> conforms(values@, params@),
{
    let mut values: Vec<Value> = Vec::new();
    let mut i: usize = 0;
    while i < params.len()
        invariant
            i <= params@.len(),
            values@.len() == i,
            forall|j: int|
                0 <= j < i ==> (#[trigger] marshal_argument_spec(params@[j], args@, j)) == Ok::<
                    Value,
                    BridgeError,
                >(values@[j]),
            forall|j: int| 0 <= j < i ==> (#[trigger] values@[j]).kind() == params@[j],
        decreases params@.len() - i,
    {
        match marshal_argument(params[i], args, i) {
            Ok(value) => {
                values.push(value);
            },
            Err(e) => {
                assert(is_first_failure(params@, args@, i as int));
                return Err(e);
            },
        }
        i = i + 1;
    }
    assert(values@ =~= Seq::new(params@.len(), |i: int| marshal_argument_spec(params@[i], args@, i)->Ok_0));
    Ok(values)
}

/// Builds the buffer that an invocation writes its results into.
pub fn result_buffer(results: &Vec<ValueKind>) -> (r: Result<Vec<Value>, BridgeError>)
    ensures
        match r {
            Ok(buffer) => result_buffer_spec(results@) == Ok::<Seq<Value>, BridgeError>(buffer@),
            Err(e) => result_buffer_spec(results@) == Err::<Seq<Value>, BridgeError>(e),
        },
        r matches Ok(buffer) ==> conforms(buffer@, results@),
{
    let mut buffer: Vec<Value> = Vec::new();
    let mut i: usize = 0;
    while i < results.len()
        invariant
            i <= results@.len(),
            buffer@.len() == i,
            forall|j: int| 0 <= j < i ==> (#[trigger] results@[j]).is_result_kind(),
            forall|j: int| 0 <= j < i ==> Value::zero(results@[j]) == Some(#[trigger] buffer@[j]),
        decreases results@.len() - i,
    {
        let kind = results[i];
        match Value::zero(kind) {
            Some(value) => {
                buffer.push(value);
            },
            None => {
                assert(is_first_unsupported_result(results@, i as int));
                return Err(BridgeError::UnsupportedType { kind, side: Side::Result, position: i });
            },
        }
        i = i + 1;
    }
    assert(buffer@ =~= Seq::new(results@.len(), |i: int| Value::zero(results@[i]).unwrap()));
    Ok(buffer)
}

/// Does all that is decided before the callee runs: builds the result buffer,
/// then converts the arguments. Gives the arguments and the buffer, in this
/// order.
pub fn prepare(ty: &WasmFunctionTy, args: &Vec<HostValue>) -> (r: Result<(Vec<Value>, Vec<Value>), BridgeError>)
    ensures
        match r {
            Ok((arguments, buffer)) => prepare_spec(ty.param_kinds(), ty.result_kinds(), args@) == Ok::<
                (Seq<Value>, Seq<Value>),
                BridgeError,
            >((arguments@, buffer@)),
            Err(e) => prepare_spec(ty.param_kinds(), ty.result_kinds(), args@) == Err::<
                (Seq<Value>, Seq<Value>),
                BridgeError,
            >(e),
        },
        r matches Ok((arguments, buffer)) ==> conforms(arguments@, ty.param_kinds()) && conforms(
            buffer@,
            ty.result_kinds(),
        ),
{
    let buffer = match result_buffer(ty.results()) {
        Ok(buffer) => buffer,
        Err(e) => {
            return Err(e);
        },
    };
    let arguments = match marshal_arguments(ty.params(), args) {
        Ok(arguments) => arguments,
        Err(e) => {
            return Err(e);
        },
    };
    Ok((arguments, buffer))
}

/// Decides what the caller gets for the values that the callee returned.
pub fn settle(values: Vec<Value>) -> (r: Result<Option<Value>, BridgeError>)
    ensures
        r == settle_spec(values@),
{
    let mut values = values;
    if values.len() > 1 {
        return Err(BridgeError::MultiResultUnsupported);
    }
    Ok(values.pop())
}

/// Where the argument at some position cannot be converted, there is a first
/// such position, at or before it.
proof fn lemma_first_failure_exists(params: Seq<ValueKind>, args: Seq<HostValue>, i: int)
    requires
        0 <= i < params.len(),
        marshal_argument_spec(params[i], args, i) is Err,
    ensures
        exists|p: int| 0 <= p <= i && is_first_failure(params, args, p),
    decreases i,
{
    if exists|j: int| 0 <= j < i && marshal_argument_spec(params[j], args, j) is Err {
        let j = choose|j: int| 0 <= j < i && marshal_argument_spec(params[j], args, j) is Err;
        lemma_first_failure_exists(params, args, j);
    } else {
        assert(is_first_failure(params, args, i));
    }
}

/// Where some result kind cannot be handed back, there is a first such
/// position, at or before it.
proof fn lemma_first_unsupported_result_exists(results: Seq<ValueKind>, i: int)
    requires
        0 <= i < results.len(),
        !results[i].is_result_kind(),
    ensures
        exists|p: int| 0 <= p <= i && is_first_unsupported_result(results, p),
    decreases i,
{
    if exists|j: int| 0 <= j < i && !results[j].is_result_kind() {
        let j = choose|j: int| 0 <= j < i && !results[j].is_result_kind();
        lemma_first_unsupported_result_exists(results, j);
    } else {
        assert(is_first_unsupported_result(results, i));
    }
}

/// A call whose signature holds only kinds that the bridge converts, and
/// whose arguments are numbers, one for each parameter at least, is always
/// prepared: each argument is converted to the kind of its parameter, and the
/// buffer holds the zero of each result kind.
pub proof fn lemma_numbers_are_prepared(params: Seq<ValueKind>, results: Seq<ValueKind>, args: Seq<HostValue>)
    requires
        forall|i: int| 0 <= i < params.len() ==> (#[trigger] params[i]).is_parameter_kind(),
        forall|i: int| 0 <= i < results.len() ==> (#[trigger] results[i]).is_result_kind(),
        params.len() <= args.len(),
        forall|i: int| 0 <= i < params.len() ==> (#[trigger] args[i]).is_number(),
    ensures
        prepare_spec(params, results, args) matches Ok((arguments, buffer)) && {
            &&& conforms(arguments, params)
            &&& conforms(buffer, results)
            &&& forall|i: int| 0 <= i < params.len() ==> args[i].convert(params[i]) == Some(#[trigger] arguments[i])
            &&& forall|i: int| 0 <= i < results.len() ==> Value::zero(results[i]) == Some(#[trigger] buffer[i])
        },
{
    assert forall|p: int| !is_first_unsupported_result(results, p) by {}
    assert forall|p: int| !is_first_failure(params, args, p) by {
        if 0 <= p < params.len() {
            assert(params[p].is_parameter_kind());
            assert(args[p].is_number());
        }
    }
}

/// Such a call hands back what the callee returned: where the callee has one
/// result and returns a value of that kind, the answer is that value, so the
/// answer is of the declared result kind.
pub proof fn lemma_answer_has_declared_kind(
    params: Seq<ValueKind>,
    results: Seq<ValueKind>,
    args: Seq<HostValue>,
    value: Value,
)
    requires
        forall|i: int| 0 <= i < params.len() ==> (#[trigger] params[i]).is_parameter_kind(),
        params.len() <= args.len(),
        forall|i: int| 0 <= i < params.len() ==> (#[trigger] args[i]).is_number(),
        results.len() == 1,
        value.kind() == results[0],
    ensures
        admissible(results, Ok(seq![value])),
        answer_spec(params, results, args, Ok(seq![value])) == Ok::<Option<Value>, BridgeError>(Some(value)),
{
    assert(results[0].is_result_kind());
    lemma_numbers_are_prepared(params, results, args);
}

/// An argument that is no number, at the position of an integer parameter,
/// fails the call with an `ArgumentType` error at or before that position,
/// however an invocation would have ended: the callee does not run. This
/// holds where no kind of the signature is refused first: every result kind
/// can be handed back, and every parameter before the position is of a kind
/// that an argument can be converted to.
pub proof fn lemma_non_numeric_argument_is_refused(
    params: Seq<ValueKind>,
    results: Seq<ValueKind>,
    args: Seq<HostValue>,
    position: int,
    outcome: Result<Seq<Value>, String>,
)
    requires
        0 <= position < params.len(),
        position < args.len(),
        params[position] is I32 || params[position] is I64,
        !args[position].is_number(),
        forall|i: int| 0 <= i < results.len() ==> (#[trigger] results[i]).is_result_kind(),
        forall|i: int| 0 <= i < position ==> (#[trigger] params[i]).is_parameter_kind(),
    ensures
        answer_spec(params, results, args, outcome) matches Err(BridgeError::ArgumentType { position: p }) && p
            <= position,
{
    assert forall|p: int| !is_first_unsupported_result(results, p) by {}
    lemma_first_failure_exists(params, args, position);
    let p = choose|p: int| is_first_failure(params, args, p);
    assert(0 <= p <= position) by {
        if p > position {
            assert(marshal_argument_spec(params[position], args, position) is Ok);
        }
    }
    assert(params[p].is_parameter_kind());
}

/// A result kind that cannot be handed back to the caller fails the call
/// with an `UnsupportedType` error that names the first such kind, whatever
/// the arguments are and however an invocation would have ended: the callee
/// does not run.
pub proof fn lemma_unsupported_result_is_refused(
    params: Seq<ValueKind>,
    results: Seq<ValueKind>,
    args: Seq<HostValue>,
    position: int,
    outcome: Result<Seq<Value>, String>,
)
    requires
        0 <= position < results.len(),
        position <= usize::MAX,
        !results[position].is_result_kind(),
    ensures
        answer_spec(params, results, args, outcome) matches Err(
            BridgeError::UnsupportedType { kind, side: Side::Result, position: p },
        ) && p <= position && kind == results[p as int] && !kind.is_result_kind(),
{
    lemma_first_unsupported_result_exists(results, position);
    let p = choose|p: int| is_first_unsupported_result(results, p);
    assert(0 <= p <= position) by {
        if p > position {
            assert(results[position].is_result_kind());
        }
    }
}

/// A parameter kind that no argument can be converted to fails the call with
/// an `UnsupportedType` error that names it, however an invocation would have
/// ended: the callee does not run. This holds where nothing is refused first:
/// every result kind can be handed back, and every parameter before the
/// position is of a kind that an argument can be converted to and has a
/// number for its argument.
pub proof fn lemma_unsupported_parameter_is_refused(
    params: Seq<ValueKind>,
    results: Seq<ValueKind>,
    args: Seq<HostValue>,
    position: int,
    outcome: Result<Seq<Value>, String>,
)
    requires
        0 <= position < params.len(),
        position <= usize::MAX,
        !params[position].is_parameter_kind(),
        forall|i: int| 0 <= i < results.len() ==> (#[trigger] results[i]).is_result_kind(),
        forall|i: int| 0 <= i < position ==> (#[trigger] params[i]).is_parameter_kind(),
        forall|i: int| 0 <= i < position ==> i < args.len() && (#[trigger] args[i]).is_number(),
    ensures
        answer_spec(params, results, args, outcome) == Err::<Option<Value>, BridgeError>(
            BridgeError::UnsupportedType {
                kind: params[position],
                side: Side::Parameter,
                position: position as usize,
            },
        ),
{
    assert forall|p: int| !is_first_unsupported_result(results, p) by {}
    assert(is_first_failure(params, args, position)) by {
        assert forall|j: int| 0 <= j < position implies (#[trigger] marshal_argument_spec(
            params[j],
            args,
            j,
        )) is Ok by {
            assert(params[j].is_parameter_kind());
            assert(args[j].is_number());
        }
    }
    let p = choose|p: int| is_first_failure(params, args, p);
    assert(p == position) by {
        if p < position {
            assert(marshal_argument_spec(params[p], args, p) is Ok);
        }
        if p > position {
            assert(marshal_argument_spec(params[position], args, position) is Ok);
        }
    }
}

/// A callee with two results or more never gives the caller a value. Where
/// the call is prepared and the callee returns, the answer is
/// `MultiResultUnsupported`.
pub proof fn lemma_many_results_are_refused(
    params: Seq<ValueKind>,
    results: Seq<ValueKind>,
    args: Seq<HostValue>,
    outcome: Result<Seq<Value>, String>,
)
    requires
        results.len() >= 2,
        admissible(results, outcome),
    ensures
        answer_spec(params, results, args, outcome) is Err,
        prepare_spec(params, results, args) is Ok && outcome is Ok ==> answer_spec(params, results, args, outcome)
            == Err::<Option<Value>, BridgeError>(BridgeError::MultiResultUnsupported),
{
}

/// A callee that traps fails the call with an `Invocation` error that holds
/// the engine's description, where the call was prepared.
pub proof fn lemma_trap_is_reported(
    params: Seq<ValueKind>,
    results: Seq<ValueKind>,
    args: Seq<HostValue>,
    description: String,
)
    requires
        prepare_spec(params, results, args) is Ok,
    ensures
        answer_spec(params, results, args, Err(description)) == Err::<Option<Value>, BridgeError>(
            BridgeError::Invocation(description),
        ),
{
}

/// The bridge keeps nothing between calls: the answer of a call is decided by
/// the signature, the arguments and the way the invocation ended. Two calls
/// that agree in these give the same answer, and the callee is handed the
/// same values in both.
pub proof fn lemma_calls_are_reproducible(
    params: Seq<ValueKind>,
    results: Seq<ValueKind>,
    first_args: Seq<HostValue>,
    second_args: Seq<HostValue>,
    first_outcome: Result<Seq<Value>, String>,
    second_outcome: Result<Seq<Value>, String>,
)
    requires
        first_args == second_args,
        first_outcome == second_outcome,
    ensures
        prepare_spec(params, results, first_args) == prepare_spec(params, results, second_args),
        answer_spec(params, results, first_args, first_outcome) == answer_spec(
            params,
            results,
            second_args,
            second_outcome,
        ),
{
}

} // verus!
