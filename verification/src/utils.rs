//! Utility functions for working with the results of execution-engine tests.
use std::rc::Rc;

use casper_execution_engine::shared::additive_map::AdditiveMap;
use casper_execution_engine::shared::transform::Transform;
use casper_types::account::Account;
use casper_types::{Gas, Key};
use vstd::prelude::*;

use crate::engine::{
    EngineError, EngineExecutionResult,
    error_debug_text, stored_value_variant, stored_value_variant_of, transform_variant,
    transform_variant_of, StoredValueVariant, TransformVariant, error_text, execution_cost, failure_error,
    is_precondition_failure, result_cost, result_error, result_has_precondition_failure,
    transform_at, transform_for,
};

verus! {

/// The decimal digit `d`, for `d < 10`.
pub open spec fn digit_char(d: nat) -> char {
    seq!['0', '1', '2', '3', '4', '5', '6', '7', '8', '9'][d as int]
}

/// The decimal rendering of `n`, without leading zeros.
pub open spec fn decimal(n: nat) -> Seq<char>
    decreases n,
{
    if n < 10 {
        seq![digit_char(n)]
    } else {
        decimal(n / 10).push(digit_char(n % 10))
    }
}

/// The line `<i>: <error>` for each entry `i` that holds an error, in order.
pub open spec fn error_lines(errors: Seq<Option<Seq<char>>>) -> Seq<Seq<char>>
    decreases errors.len(),
{
    if errors.len() == 0 {
        Seq::empty()
    } else {
        let before = error_lines(errors.drop_last());
        match errors.last() {
            Some(error) => before.push(decimal((errors.len() - 1) as nat) + ": "@ + error),
            None => before,
        }
    }
}

/// `lines` joined with a newline between each two of them.
pub open spec fn joined_lines(lines: Seq<Seq<char>>) -> Seq<char>
    decreases lines.len(),
{
    if lines.len() == 0 {
        Seq::empty()
    } else if lines.len() == 1 {
        lines[0]
    } else {
        joined_lines(lines.drop_last()) + "\n"@ + lines.last()
    }
}

/// The views of optional strings.
pub open spec fn texts_view(texts: Seq<Option<String>>) -> Seq<Option<Seq<char>>> {
    texts.map_values(|t: Option<String>| match t { Some(s) => Some(s@), None => None })
}

/// What each execution result contributes to the error message: the
/// rendering of its error, for a failed execution.
pub open spec fn result_error_texts(results: Seq<Rc<EngineExecutionResult>>) -> Seq<Option<Seq<char>>> {
    results.map_values(|r: Rc<EngineExecutionResult>| match failure_error(*r) {
        Some(e) => Some(error_debug_text(e)),
        None => None,
    })
}

/// The number that a sequence of decimal digits stands for, read with the
/// most significant digit first.
pub open spec fn digits_value(digits: Seq<char>) -> int
    decreases digits.len(),
{
    if digits.len() == 0 {
        0
    } else {
        digits_value(digits.drop_last()) * 10 + (digits.last() as int - '0' as int)
    }
}

/// The rendering of a number is ordinary decimal: it reads back as the number,
/// most significant digit first, it holds decimal digits only, and it starts
/// with a zero only for zero itself.
pub proof fn law_decimal_reads_back(n: nat)
    ensures
        digits_value(decimal(n)) == n,
        forall|k: int| 0 <= k < decimal(n).len() ==> '0' <= #[trigger] decimal(n)[k] <= '9',
        decimal(n)[0] == '0' ==> n == 0,
    decreases n,
{
    if n >= 10 {
        law_decimal_reads_back(n / 10);
        let d = decimal(n);
        assert(d.drop_last() =~= decimal(n / 10));
        assert(n == (n / 10) * 10 + n % 10);
        lemma_digit_char_value(n % 10);
        assert(d.last() == digit_char(n % 10));
        assert(digits_value(d) == digits_value(d.drop_last()) * 10 + (d.last() as int - '0' as int));
        assert(digits_value(d) == (n / 10) * 10 + n % 10);
        assert forall|k: int| 0 <= k < d.len() implies '0' <= #[trigger] d[k] <= '9' by {
            if k < d.len() - 1 {
                assert(d[k] == decimal(n / 10)[k]);
            }
        }
        assert(d[0] == decimal(n / 10)[0]);
        if decimal(n / 10)[0] == '0' {
            assert(n / 10 == 0);
        }
    } else {
        let d = decimal(n);
        assert(d.drop_last() =~= Seq::<char>::empty());
        lemma_digit_char_value(n);
        assert(digits_value(Seq::<char>::empty()) == 0);
        assert(d.last() == digit_char(n));
        assert(digits_value(d) == digits_value(d.drop_last()) * 10 + (d.last() as int - '0' as int));
    }
}

/// The digit of `d` stands for `d`.
proof fn lemma_digit_char_value(d: nat)
    requires
        d < 10,
    ensures
        digit_char(d) as int - '0' as int == d,
        '0' <= digit_char(d) <= '9',
{
    let digits = seq!['0', '1', '2', '3', '4', '5', '6', '7', '8', '9'];
    assert(digits[0] == '0' && digits[1] == '1' && digits[2] == '2' && digits[3] == '3');
    assert(digits[4] == '4' && digits[5] == '5' && digits[6] == '6' && digits[7] == '7');
    assert(digits[8] == '8' && digits[9] == '9');
}

/// The decimal rendering of a number is never empty.
pub proof fn law_decimal_is_not_empty(n: nat)
    ensures
        decimal(n).len() > 0,
    decreases n,
{
    if n >= 10 {
        law_decimal_is_not_empty(n / 10);
    }
}

/// No line comes out exactly when no entry holds an error, and no line is
/// empty.
proof fn lemma_error_lines_empty(errors: Seq<Option<Seq<char>>>)
    ensures
        error_lines(errors).len() == 0 <==> forall|i: int|
            0 <= i < errors.len() ==> #[trigger] errors[i] is None,
        forall|k: int| 0 <= k < error_lines(errors).len() ==> #[trigger] error_lines(errors)[k].len() > 0,
    decreases errors.len(),
{
    if errors.len() > 0 {
        let before = errors.drop_last();
        lemma_error_lines_empty(before);
        assert forall|i: int| 0 <= i < before.len() implies before[i] == errors[i] by {}
        law_decimal_is_not_empty((errors.len() - 1) as nat);
        if error_lines(errors).len() == 0 {
            assert forall|i: int| 0 <= i < errors.len() implies #[trigger] errors[i] is None by {
                if i < before.len() {
                    assert(before[i] is None);
                }
            }
        }
    }
}

/// Lines that are not empty join into empty text only when there are none.
proof fn lemma_joined_lines_empty(lines: Seq<Seq<char>>)
    requires
        forall|k: int| 0 <= k < lines.len() ==> #[trigger] lines[k].len() > 0,
    ensures
        joined_lines(lines).len() == 0 <==> lines.len() == 0,
    decreases lines.len(),
{
    if lines.len() > 1 {
        assert(lines.last() == lines[lines.len() - 1]);
    } else if lines.len() == 1 {
        assert(lines[0].len() > 0);
    }
}

/// The error message is empty exactly when no execution failed.
pub proof fn law_error_message_empty_iff_no_failure(errors: Seq<Option<Seq<char>>>)
    ensures
        joined_lines(error_lines(errors)).len() == 0 <==> forall|i: int|
            0 <= i < errors.len() ==> #[trigger] errors[i] is None,
{
    lemma_error_lines_empty(errors);
    lemma_joined_lines_empty(error_lines(errors));
}

/// The one-character string of the decimal digit `d`.
fn digit_str(d: usize) -> (s: &'static str)
    requires
        d < 10,
    ensures
        s@ == seq![digit_char(d as nat)],
{
    proof {
        reveal_strlit("0");
        reveal_strlit("1");
        reveal_strlit("2");
        reveal_strlit("3");
        reveal_strlit("4");
        reveal_strlit("5");
        reveal_strlit("6");
        reveal_strlit("7");
        reveal_strlit("8");
        reveal_strlit("9");
    }
    if d == 0 {
        "0"
    } else if d == 1 {
        "1"
    } else if d == 2 {
        "2"
    } else if d == 3 {
        "3"
    } else if d == 4 {
        "4"
    } else if d == 5 {
        "5"
    } else if d == 6 {
        "6"
    } else if d == 7 {
        "7"
    } else if d == 8 {
        "8"
    } else {
        "9"
    }
}

/// Appends the decimal rendering of `n` to `text`.
fn push_decimal(text: &mut String, n: usize)
    ensures
        final(text)@ == old(text)@ + decimal(n as nat),
    decreases n,
{
    if n >= 10 {
        push_decimal(text, n / 10);
    }
    text.append(digit_str(n % 10));
    assert(final(text)@ =~= old(text)@ + decimal(n as nat));
}

/// Joins, one per line, `<i>: <text>` for each entry `i` of `errors` that
/// holds a text.
pub fn join_error_messages(errors: &Vec<Option<String>>) -> (message: String)
    ensures
        message@ == joined_lines(error_lines(texts_view(errors@))),
{
    let ghost texts = texts_view(errors@);
    let mut message = String::new();
    let mut empty = true;
    let mut i: usize = 0;
    while i < errors.len()
        invariant
            i <= errors@.len(),
            texts == texts_view(errors@),
            message@ == joined_lines(error_lines(texts.subrange(0, i as int))),
            empty == (error_lines(texts.subrange(0, i as int)).len() == 0),
        decreases errors@.len() - i,
    {
        let ghost lines = error_lines(texts.subrange(0, i as int));
        assert(texts.subrange(0, i + 1).drop_last() =~= texts.subrange(0, i as int));
        match &errors[i] {
            Some(error) => {
                let ghost line = decimal(i as nat) + ": "@ + error@;
                if !empty {
                    message.append("\n");
                }
                let ghost prefix = message@;
                push_decimal(&mut message, i);
                message.append(": ");
                message.append(error.as_str());
                assert(message@ =~= prefix + line);
                assert(error_lines(texts.subrange(0, i + 1)) =~= lines.push(line));
                assert(lines.push(line).drop_last() =~= lines);
                empty = false;
            },
            None => {},
        }
        i = i + 1;
    }
    assert(texts.subrange(0, errors@.len() as int) =~= texts);
    message
}

/// Returns the gas cost of each execution result, in order.
pub fn get_exec_costs(exec_response: &[Rc<EngineExecutionResult>]) -> (costs: Vec<Gas>)
    ensures
        costs@ == exec_response@.map_values(|r: Rc<EngineExecutionResult>| execution_cost(*r)),
{
    let mut costs: Vec<Gas> = Vec::new();
    let mut i: usize = 0;
    while i < exec_response.len()
        invariant
            i <= exec_response@.len(),
            costs@ =~= exec_response@.subrange(0, i as int).map_values(
                |r: Rc<EngineExecutionResult>| execution_cost(*r),
            ),
        decreases exec_response@.len() - i,
    {
        costs.push(result_cost(&exec_response[i]));
        i = i + 1;
    }
    assert(exec_response@.subrange(0, exec_response@.len() as int) =~= exec_response@);
    costs
}

/// Returns the first execution result, the one of a successful run.
pub fn get_success_result(response: &[Rc<EngineExecutionResult>]) -> (result: &EngineExecutionResult)
    requires
        response@.len() > 0,
    ensures
        *result == *response@[0],
{
    &response[0]
}

/// Returns the error of the first execution result, which must be a
/// precondition failure.
pub fn get_precondition_failure(response: &[Rc<EngineExecutionResult>]) -> (error: &EngineError)
    requires
        response@.len() > 0,
        is_precondition_failure(*response@[0]),
    ensures
        failure_error(*response@[0]) == Some(*error),
{
    let result: &EngineExecutionResult = &response[0];
    let failed = result_has_precondition_failure(result);
    assert(failed);
    result_error(result).unwrap()
}

/// The error of the first execution result where it is a precondition
/// failure; `None` where there is no result or the first is not one.
pub fn try_get_precondition_failure(response: &[Rc<EngineExecutionResult>]) -> (error: Option<&EngineError>)
    ensures
        error is Some <==> response@.len() > 0 && is_precondition_failure(*response@[0]),
        error matches Some(e) ==> failure_error(*response@[0]) == Some(*e),
{
    if response.len() == 0 {
        return None;
    }
    if result_has_precondition_failure(&response[0]) {
        Some(get_precondition_failure(response))
    } else {
        None
    }
}

/// Returns the error messages of all the failed execution results, one per
/// line, each led by the position of its result.
pub fn get_error_message(execution_result: &[Rc<EngineExecutionResult>]) -> (message: String)
    ensures
        message@ == joined_lines(error_lines(result_error_texts(execution_result@))),
{
    let mut errors: Vec<Option<String>> = Vec::new();
    let mut i: usize = 0;
    while i < execution_result.len()
        invariant
            i <= execution_result@.len(),
            texts_view(errors@) =~= result_error_texts(execution_result@.subrange(0, i as int)),
        decreases execution_result@.len() - i,
    {
        let entry = match result_error(&execution_result[i]) {
            Some(error) => Some(error_text(error)),
            None => None,
        };
        let ghost before = errors@;
        errors.push(entry);
        assert(texts_view(errors@) =~= texts_view(before).push(
            match entry {
                Some(t) => Some(t@),
                None => None,
            },
        ));
        assert(execution_result@.subrange(0, i + 1) =~= execution_result@.subrange(0, i as int).push(
            execution_result@[i as int],
        ));
        i = i + 1;
    }
    assert(execution_result@.subrange(0, execution_result@.len() as int) =~= execution_result@);
    join_error_messages(&errors)
}

/// The account that a transform writes: `Some(a)` exactly for a write of the
/// stored account `a`, `None` for every other transform.
pub open spec fn account_written(transform: Transform) -> Option<Account> {
    match transform_variant_of(transform) {
        TransformVariant::Write(value) => match stored_value_variant_of(value) {
            StoredValueVariant::Account(account) => Some(account),
            _ => None,
        },
        _ => None,
    }
}

/// Returns the account that `transforms` writes at `account`, if it writes
/// one there.
pub fn get_account(transforms: &AdditiveMap<Key, Transform>, account: &Key) -> (found: Option<
    Account,
>)
    ensures
        found == match transform_at(*transforms, *account) {
            Some(transform) => account_written(transform),
            None => None,
        },
{
    match transform_for(transforms, account) {
        Some(transform) => match transform_variant(transform) {
            TransformVariant::Write(value) => match stored_value_variant(value) {
                StoredValueVariant::Account(written) => Some(written),
                _ => None,
            },
            _ => None,
        },
        None => None,
    }
}

} // verus!
