//! Turning command requests into the strings handed to `mpv_command`.
use vstd::prelude::*;
use crate::error::{nul_error, Error, ErrorView};
use crate::json::{JsonValue, JsonView};
use crate::options::nul_error_of;
use crate::text::{find_zero_byte, has_zero_byte, trim_quote_chars, trim_quotes};

verus! {

/// The argument string a JSON value gives a command: booleans as
/// `true`/`false`, numbers as their JSON text, strings as they are, and any
/// other value as its JSON text with the double quotes at both ends removed.
pub open spec fn command_arg_text(v: JsonView) -> Seq<char> {
    match v {
        JsonView::Bool(b) => if b { "true"@ } else { "false"@ },
        JsonView::Number(t) => t,
        JsonView::Str(s) => s,
        JsonView::Null => trim_quotes("null"@),
        JsonView::Array(t) => trim_quotes(t),
        JsonView::Object(t) => trim_quotes(t),
    }
}

/// The argument string a JSON value gives a command.
pub fn command_arg(v: &JsonValue) -> (r: String)
    ensures
        r@ == command_arg_text(v@),
{
    match v {
        JsonValue::Bool(b) => if *b {
            String::from_str("true")
        } else {
            String::from_str("false")
        },
        JsonValue::Number(t) => t.clone(),
        JsonValue::Str(s) => s.clone(),
        JsonValue::Null => trim_quote_chars("null"),
        JsonValue::Array(t) => trim_quote_chars(t.as_str()),
        JsonValue::Object(t) => trim_quote_chars(t.as_str()),
    }
}

/// The argument strings of a list of JSON values, one for each, in order.
pub fn command_args(values: &Vec<JsonValue>) -> (r: Vec<String>)
    ensures
        r@.len() == values@.len(),
        forall|k: int| 0 <= k < r@.len() ==> (#[trigger] r@[k])@ == command_arg_text(values@[k]@),
{
    let mut out: Vec<String> = Vec::new();
    let mut i: usize = 0;
    while i < values.len()
        invariant
            i <= values@.len(),
            out@.len() == i,
            forall|k: int| 0 <= k < i ==> (#[trigger] out@[k])@ == command_arg_text(values@[k]@),
        decreases values@.len() - i,
    {
        out.push(command_arg(&values[i]));
        i += 1;
    }
    out
}

/// The error for the first of a sequence of texts that holds a zero byte.
pub open spec fn first_nul_error(texts: Seq<Seq<char>>) -> Option<ErrorView>
    decreases texts.len(),
{
    if texts.len() == 0 {
        None
    } else if has_zero_byte(texts[0]) {
        Some(nul_error_of(texts[0]))
    } else {
        first_nul_error(texts.drop_first())
    }
}

/// The texts of a command: its name, then its arguments.
pub open spec fn command_texts(name: Seq<char>, args: Seq<&str>) -> Seq<Seq<char>> {
    seq![name] + args.map_values(|a: &str| a@)
}

/// Checks that a command's name and arguments can all be handed to C: the
/// error for the first of them that holds a zero byte, if any does.
pub fn check_command_strings(name: &str, args: &[&str]) -> (r: Result<(), Error>)
    ensures
        match r {
            Ok(()) => first_nul_error(command_texts(name@, args@)) is None,
            Err(e) => first_nul_error(command_texts(name@, args@)) == Some(e@),
        },
{
    let ghost texts = command_texts(name@, args@);
    assert(texts.drop_first() =~= args@.map_values(|a: &str| a@));
    match find_zero_byte(name) {
        Some(pos) => { return Err(nul_error(pos)) },
        None => {},
    }
    let mut i: usize = 0;
    assert(texts.drop_first().skip(0) =~= texts.drop_first());
    while i < args.len()
        invariant
            texts == command_texts(name@, args@),
            i <= args@.len(),
            first_nul_error(texts) == first_nul_error(texts.drop_first().skip(i as int)),
        decreases args@.len() - i,
    {
        let ghost rest = texts.drop_first().skip(i as int);
        proof {
            assert(rest[0] == args@[i as int]@);
            assert(rest.drop_first() =~= texts.drop_first().skip(i + 1));
        }
        match find_zero_byte(args[i]) {
            Some(pos) => { return Err(nul_error(pos)) },
            None => {},
        }
        i += 1;
    }
    assert(texts.drop_first().skip(i as int).len() == 0);
    Ok(())
}

/// A command is refused for a zero byte exactly when one of its texts holds
/// one, and the refusal is always a refused parameter.
pub proof fn law_command_strings_refused_iff_zero_byte(texts: Seq<Seq<char>>)
    ensures
        first_nul_error(texts) is None <==> forall|i: int|
            0 <= i < texts.len() ==> !has_zero_byte(#[trigger] texts[i]),
        first_nul_error(texts) matches Some(e) ==> e is InvalidParameter,
    decreases texts.len(),
{
    if texts.len() > 0 {
        law_command_strings_refused_iff_zero_byte(texts.drop_first());
        if !has_zero_byte(texts[0]) {
            assert forall|i: int| 0 < i < texts.len() && !has_zero_byte(texts.drop_first()[i - 1])
                implies !has_zero_byte(#[trigger] texts[i]) by {
                assert(texts.drop_first()[i - 1] == texts[i]);
            }
            if !(forall|i: int| 0 <= i < texts.drop_first().len() ==> !has_zero_byte(
                #[trigger] texts.drop_first()[i],
            )) {
                let i = choose|i: int|
                    0 <= i < texts.drop_first().len() && has_zero_byte(texts.drop_first()[i]);
                assert(texts[i + 1] == texts.drop_first()[i]);
            }
        }
    }
}

/// A JSON number argument is passed on exactly as its JSON text, whatever
/// its sign or form; a string argument is passed on as the string; a
/// boolean as `true` or `false`.
pub proof fn law_arguments_passed_verbatim(v: JsonView)
    ensures
        v matches JsonView::Number(t) ==> command_arg_text(v) == t,
        v matches JsonView::Str(x) ==> command_arg_text(v) == x,
        v matches JsonView::Bool(b) ==> command_arg_text(v) == (if b {
            "true"@
        } else {
            "false"@
        }),
{
}

} // verus!
