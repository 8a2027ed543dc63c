//! Helpers for calls from script and for building values.
//!
//! A call from script comes with a name and with arguments. A handler that
//! offers native functions to script finds the function by the name, checks
//! the number of the arguments, converts each of them to the type that the
//! function takes, calls it, and hands back what it returns. A call that does
//! not fit is answered with an error value that says why; it is the script
//! that gets the error, and the application goes on.

use crate::text::{append_decimal, decimal};
use crate::value::{models, FromValue, Identities, Model, Value, UNIT_ERROR};
use vstd::prelude::*;

verus! {

/// What a call with the wrong number of arguments is answered.
pub open spec fn spec_arity_message(name: Seq<char>, provided: nat, expected: nat) -> Seq<char> {
    name + " error: "@ + decimal(provided) + " of "@ + decimal(expected) + " arguments provided."@
}

/// What a call with an argument of the wrong type is answered. The argument
/// is named by its place, and the value that came by the label of its type.
pub open spec fn spec_type_message(name: Seq<char>, index: nat, expected: Seq<char>, provided: Seq<char>) -> Seq<
    char,
> {
    name + " error: invalid type of "@ + decimal(index) + " argument ("@ + expected + " expected, "@
        + provided + " provided)."@
}

/// Checks the number of arguments of a call of the function `name`: nothing
/// where it is the expected one, and else the error value that the script is
/// answered.
pub fn check_arity(name: &str, provided: usize, expected: usize) -> (r: Option<Value>)
    ensures
        r is Some <==> provided != expected,
        r matches Some(e) ==> e@ == Model::text(
            UNIT_ERROR,
            spec_arity_message(name@, provided as nat, expected as nat),
        ),
{
    if provided == expected {
        return None;
    }
    let mut msg = String::from_str(name);
    msg.append(" error: ");
    append_decimal(&mut msg, provided as u64);
    msg.append(" of ");
    append_decimal(&mut msg, expected as u64);
    msg.append(" arguments provided.");
    assert(msg@ =~= spec_arity_message(name@, provided as nat, expected as nat));
    Some(Value::error(msg.as_str()))
}

/// Converts the argument at `index` of a call of the function `name` to the
/// type that the function takes there. `expected` is the name of that type.
/// Where the value converts, the result is what it converts to. Where it does
/// not, the result is the error value that the script is answered.
pub fn argument<T: FromValue>(name: &str, index: usize, expected: &str, argv: &[Value]) -> (r: Result<T, Value>)
    requires
        index < argv.len(),
    ensures
        r is Ok <==> T::accepts(argv[index as int]@),
        r matches Ok(arg) ==> T::yields(argv[index as int]@, arg),
        r matches Err(e) ==> e@ == Model::text(
            UNIT_ERROR,
            spec_type_message(name@, index as nat, expected@, argv[index as int]@.label()),
        ),
{
    match T::from_value(&argv[index]) {
        Some(arg) => Ok(arg),
        None => {
            // invalid type
            let provided = argv[index].type_label();
            let mut msg = String::from_str(name);
            msg.append(" error: invalid type of ");
            append_decimal(&mut msg, index as u64);
            msg.append(" argument (");
            msg.append(expected);
            msg.append(" expected, ");
            msg.append(provided.as_str());
            msg.append(" provided).");
            assert(msg@ =~= spec_type_message(name@, index as nat, expected@, argv[index as int]@.label()));
            Err(Value::error(msg.as_str()))
        },
    }
}

/// A native function that a handler offers to script: its name and the
/// number of arguments that it takes.
pub struct Signature {
    pub name: String,
    pub argc: usize,
}

/// What a call from script comes to, held against the functions that a
/// handler offers.
pub enum Selection {
    /// The handler has no function of that name: the call is not handled.
    Missing,
    /// The handler has the function, and the call brings another number of
    /// arguments: the script is answered this error value.
    Arity(Value),
    /// The function at this place of the table is to be called.
    Call(usize),
}

/// The first place in `table` of a function with the name `name`, or the
/// length of `table` if it holds none.
pub open spec fn spec_method_position(table: Seq<Signature>, name: Seq<char>) -> int
    decreases table.len(),
{
    if table.len() == 0 {
        0
    } else if table[0].name@ == name {
        0
    } else {
        1 + spec_method_position(table.drop_first(), name)
    }
}

/// Where the first `i` functions have other names, and the function at `i`
/// has the name or `i` is the end, `i` is the name's position.
proof fn lemma_method_position(table: Seq<Signature>, name: Seq<char>, i: int)
    requires
        0 <= i <= table.len(),
        forall|j: int| 0 <= j < i ==> table[j].name@ != name,
        i < table.len() ==> table[i].name@ == name,
    ensures
        spec_method_position(table, name) == i,
    decreases table.len(),
{
    if table.len() > 0 && i > 0 {
        let rest = table.drop_first();
        assert forall|j: int| 0 <= j < i - 1 implies rest[j].name@ != name by {
            assert(rest[j] == table[j + 1]);
        }
        if i - 1 < rest.len() {
            assert(rest[i - 1] == table[i]);
        }
        lemma_method_position(rest, name, i - 1);
    }
}

/// Looks a call from script up in the table of the functions that a handler
/// offers: by the name of the function, then by the number of arguments.
///
/// The first function of that name counts. A call of a function that the
/// table does not hold is `Missing`. A call with the wrong number of arguments
/// is answered an error value that names the function and both numbers.
pub fn select_method(table: &[Signature], name: &str, provided: usize) -> (r: Selection)
    ensures
        ({
            let at = spec_method_position(table@, name@);
            &&& 0 <= at <= table.len()
            &&& at == table.len() ==> r is Missing
            &&& at < table.len() && table[at].argc == provided ==> (r matches Selection::Call(i) && i == at)
            &&& at < table.len() && table[at].argc != provided ==> (r matches Selection::Arity(e) && e@
                == Model::text(
                UNIT_ERROR,
                spec_arity_message(name@, provided as nat, table[at].argc as nat),
            ))
        }),
{
    let wanted = String::from_str(name);
    let mut i: usize = 0;
    while i < table.len()
        invariant
            i <= table.len(),
            wanted@ == name@,
            forall|j: int| 0 <= j < i ==> table[j].name@ != name@,
        decreases table.len() - i,
    {
        if table[i].name == wanted {
            proof {
                lemma_method_position(table@, name@, i as int);
            }
            return match check_arity(name, provided, table[i].argc) {
                Some(e) => Selection::Arity(e),
                None => Selection::Call(i),
            };
        }
        i = i + 1;
    }
    proof {
        lemma_method_position(table@, name@, i as int);
    }
    Selection::Missing
}

/// Creates a value of array type that holds the given values. Its identity
/// is drawn from `ids`.
pub fn varray(ids: &mut Identities, values: Vec<Value>) -> (r: Value)
    requires
        old(ids)@ < u64::MAX,
    ensures
        r@ == Model::plain(crate::value::Content::Array(old(ids)@, models(values@))),
        final(ids)@ == old(ids)@ + 1,
{
    Value::from_values(ids, values)
}

} // verus!
