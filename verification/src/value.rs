//! Structured argument and payload values, parameter types, and argument
//! lookup by parameter name.

use vstd::prelude::*;

verus! {

/// The type a declared command parameter expects its argument to have.
#[derive(Clone, Copy, Debug, PartialEq, Eq, Structural)]
pub enum ParamType {
    Bool,
    Int,
    Str,
}

/// A structured value: an argument handed to a command, or a success payload
/// handed back.
#[derive(Clone, Debug, PartialEq, Eq)]
pub enum Value {
    Null,
    Bool(bool),
    Int(i64),
    Str(String),
}

/// Mathematical model of a `Value`.
pub enum ValueV {
    Null,
    Bool(bool),
    Int(int),
    Str(Seq<char>),
}

impl View for Value {
    type V = ValueV;

    open spec fn view(&self) -> ValueV {
        match self {
            Value::Null => ValueV::Null,
            Value::Bool(b) => ValueV::Bool(*b),
            Value::Int(i) => ValueV::Int(*i as int),
            Value::Str(s) => ValueV::Str(s@),
        }
    }
}

/// Model of an argument payload: parameter names mapped to values, in the
/// order the caller supplied them.
pub type ArgsV = Seq<(Seq<char>, ValueV)>;

/// Model of an executable argument list.
pub open spec fn args_view(args: Seq<(String, Value)>) -> ArgsV {
    args.map_values(|p: (String, Value)| (p.0@, p.1@))
}

/// Whether a value has the given parameter type. `Null` conforms to no
/// declared type.
pub open spec fn conforms(v: ValueV, t: ParamType) -> bool {
    match t {
        ParamType::Bool => v is Bool,
        ParamType::Int => v is Int,
        ParamType::Str => v is Str,
    }
}

/// Checks a value against a declared parameter type.
pub fn value_conforms(v: &Value, t: ParamType) -> (r: bool)
    ensures
        r == conforms(v@, t),
{
    match (v, t) {
        (Value::Bool(_), ParamType::Bool) => true,
        (Value::Int(_), ParamType::Int) => true,
        (Value::Str(_), ParamType::Str) => true,
        _ => false,
    }
}

/// The value bound to `name` in an argument payload; when the caller supplied
/// the name more than once, the first binding wins.
pub open spec fn lookup_arg(args: ArgsV, name: Seq<char>) -> Option<ValueV>
    decreases args.len(),
{
    if args.len() == 0 {
        None
    } else if args[0].0 == name {
        Some(args[0].1)
    } else {
        lookup_arg(args.drop_first(), name)
    }
}

proof fn lemma_lookup_arg_skip(args: ArgsV, name: Seq<char>, i: int)
    requires
        0 <= i < args.len(),
        args[i].0 != name,
        lookup_arg(args, name) == lookup_arg(args.skip(i), name),
    ensures
        lookup_arg(args, name) == lookup_arg(args.skip(i + 1), name),
{
    assert(args.skip(i)[0] == args[i]);
    assert(args.skip(i).drop_first() =~= args.skip(i + 1));
}

/// Finds the argument bound to `name`, first binding first.
pub fn find_arg<'a>(args: &'a Vec<(String, Value)>, name: &str) -> (r: Option<&'a Value>)
    ensures
        match r {
            Some(v) => lookup_arg(args_view(args@), name@) == Some(v@),
            None => lookup_arg(args_view(args@), name@) is None,
        },
{
    let key: String = name.to_owned();
    let ghost view_args = args_view(args@);
    proof {
        assert(view_args.skip(0) =~= view_args);
    }
    let mut i: usize = 0;
    while i < args.len()
        invariant
            0 <= i <= args.len(),
            view_args == args_view(args@),
            view_args.len() == args@.len(),
            key@ == name@,
            lookup_arg(view_args, name@) == lookup_arg(view_args.skip(i as int), name@),
        decreases args.len() - i,
    {
        if args[i].0 == key {
            assert(view_args.skip(i as int)[0] == view_args[i as int]);
            return Some(&args[i].1);
        }
        proof {
            lemma_lookup_arg_skip(view_args, name@, i as int);
        }
        i += 1;
    }
    assert(view_args.skip(i as int) =~= Seq::<(Seq<char>, ValueV)>::empty());
    None
}

} // verus!
