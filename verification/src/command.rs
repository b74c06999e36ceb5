//! Commands: named backend operations with a declared parameter schema and a
//! handler, argument validation against the schema, and handler execution.

use vstd::prelude::*;
use vstd::string::*;

use crate::value::{
    args_view, conforms, lookup_arg, value_conforms, ArgsV, ParamType, Value, ValueV,
};

verus! {

/// One declared parameter of a command: its name, expected type, and whether
/// the caller must supply it.
#[derive(Clone, Debug)]
pub struct ParamDecl {
    pub name: String,
    pub ty: ParamType,
    pub required: bool,
}

/// Mathematical model of a `ParamDecl`.
pub struct ParamDeclV {
    pub name: Seq<char>,
    pub ty: ParamType,
    pub required: bool,
}

impl View for ParamDecl {
    type V = ParamDeclV;

    open spec fn view(&self) -> ParamDeclV {
        ParamDeclV { name: self.name@, ty: self.ty, required: self.required }
    }
}

/// Model of a parameter list.
pub open spec fn params_view(params: Seq<ParamDecl>) -> Seq<ParamDeclV> {
    params.map_values(|p: ParamDecl| p@)
}

/// The backend operation a command runs once its arguments validate.
#[derive(Clone, Copy, Debug, PartialEq, Eq, Structural)]
pub enum HandlerKind {
    /// Greets the caller: takes a required string parameter `name`.
    Greet,
    /// Adds two integers: takes required integer parameters `a` and `b`;
    /// fails on overflow.
    Sum,
}

/// A named, registered operation.
#[derive(Clone, Debug)]
pub struct Command {
    pub name: String,
    pub params: Vec<ParamDecl>,
    pub handler: HandlerKind,
}

/// Mathematical model of a `Command`.
pub struct CommandV {
    pub name: Seq<char>,
    pub params: Seq<ParamDeclV>,
    pub handler: HandlerKind,
}

impl View for Command {
    type V = CommandV;

    open spec fn view(&self) -> CommandV {
        CommandV { name: self.name@, params: params_view(self.params@), handler: self.handler }
    }
}

/// How an argument payload can violate a declared parameter.
#[derive(Clone, Copy, Debug, PartialEq, Eq, Structural)]
pub enum Violation {
    MissingRequired,
    TypeMismatch,
}

/// Whether the payload violates one declared parameter, and how: a required
/// parameter may be absent, and a supplied argument must have the declared
/// type.
pub open spec fn param_violation(p: ParamDeclV, args: ArgsV) -> Option<Violation> {
    match lookup_arg(args, p.name) {
        None => if p.required {
            Some(Violation::MissingRequired)
        } else {
            None
        },
        Some(v) => if !conforms(v, p.ty) {
            Some(Violation::TypeMismatch)
        } else {
            None
        },
    }
}

/// The first declared parameter the payload violates, with the violation,
/// in declaration order; `None` when the payload validates.
pub open spec fn first_violation(params: Seq<ParamDeclV>, args: ArgsV) -> Option<
    (Seq<char>, Violation),
>
    decreases params.len(),
{
    if params.len() == 0 {
        None
    } else {
        match param_violation(params[0], args) {
            Some(v) => Some((params[0].name, v)),
            None => first_violation(params.drop_first(), args),
        }
    }
}

proof fn lemma_first_violation_skip(params: Seq<ParamDeclV>, args: ArgsV, i: int)
    requires
        0 <= i < params.len(),
        param_violation(params[i], args) is None,
        first_violation(params, args) == first_violation(params.skip(i), args),
    ensures
        first_violation(params, args) == first_violation(params.skip(i + 1), args),
{
    assert(params.skip(i)[0] == params[i]);
    assert(params.skip(i).drop_first() =~= params.skip(i + 1));
}

/// Validates an argument payload against a parameter list: returns the first
/// violated parameter's name and the violation, or `None` when the payload
/// validates.
pub fn validate(params: &Vec<ParamDecl>, args: &Vec<(String, Value)>) -> (r: Option<
    (String, Violation),
>)
    ensures
        match r {
            Some(pv) => first_violation(params_view(params@), args_view(args@)) == Some(
                (pv.0@, pv.1),
            ),
            None => first_violation(params_view(params@), args_view(args@)) is None,
        },
{
    let ghost pv_all = params_view(params@);
    let ghost av = args_view(args@);
    proof {
        assert(pv_all.skip(0) =~= pv_all);
    }
    let mut i: usize = 0;
    while i < params.len()
        invariant
            0 <= i <= params.len(),
            pv_all == params_view(params@),
            av == args_view(args@),
            pv_all.len() == params@.len(),
            first_violation(pv_all, av) == first_violation(pv_all.skip(i as int), av),
        decreases params.len() - i,
    {
        let p = &params[i];
        proof {
            assert(pv_all.skip(i as int)[0] == pv_all[i as int]);
        }
        match find_arg_checked(args, p) {
            Some(v) => {
                return Some((p.name.clone(), v));
            },
            None => {},
        }
        proof {
            lemma_first_violation_skip(pv_all, av, i as int);
        }
        i += 1;
    }
    proof {
        assert(pv_all.skip(i as int) =~= Seq::<ParamDeclV>::empty());
    }
    None
}

/// Checks one declared parameter against the payload.
fn find_arg_checked(args: &Vec<(String, Value)>, p: &ParamDecl) -> (r: Option<Violation>)
    ensures
        match r {
            Some(v) => param_violation(p@, args_view(args@)) == Some(v),
            None => param_violation(p@, args_view(args@)) is None,
        },
{
    match crate::value::find_arg(args, p.name.as_str()) {
        None => if p.required {
            Some(Violation::MissingRequired)
        } else {
            None
        },
        Some(v) => if !value_conforms(v, p.ty) {
            Some(Violation::TypeMismatch)
        } else {
            None
        },
    }
}

/// The greeting the `Greet` handler returns for a caller name.
pub open spec fn greeting(name: Seq<char>) -> Seq<char> {
    "Hello, "@ + name + "! You've been greeted from Rust!"@
}

/// Formats the greeting for a caller name.
pub fn greet(name: &str) -> (r: String)
    ensures
        r@ == greeting(name@),
{
    let mut s = String::from_str("Hello, ");
    s.append(name);
    s.append("! You've been greeted from Rust!");
    s
}

/// What a handler returns for an argument payload: a success payload, or the
/// handler's own failure message.
pub open spec fn run_handler_spec(h: HandlerKind, args: ArgsV) -> Result<ValueV, Seq<char>> {
    match h {
        HandlerKind::Greet => match lookup_arg(args, "name"@) {
            Some(ValueV::Str(s)) => Ok(ValueV::Str(greeting(s))),
            _ => Err("greet expects a string parameter"@),
        },
        HandlerKind::Sum => match (lookup_arg(args, "a"@), lookup_arg(args, "b"@)) {
            (Some(ValueV::Int(a)), Some(ValueV::Int(b))) => if i64::MIN <= a + b <= i64::MAX {
                Ok(ValueV::Int(a + b))
            } else {
                Err("arithmetic overflow"@)
            },
            _ => Err("sum expects integer parameters"@),
        },
    }
}

/// Runs a handler on an argument payload.
pub fn run_handler(h: HandlerKind, args: &Vec<(String, Value)>) -> (r: Result<Value, String>)
    ensures
        match (r, run_handler_spec(h, args_view(args@))) {
            (Ok(v), Ok(sv)) => v@ == sv,
            (Err(m), Err(sm)) => m@ == sm,
            _ => false,
        },
{
    match h {
        HandlerKind::Greet => match crate::value::find_arg(args, "name") {
            Some(Value::Str(s)) => Ok(Value::Str(greet(s.as_str()))),
            _ => Err(String::from_str("greet expects a string parameter")),
        },
        HandlerKind::Sum => {
            let a = crate::value::find_arg(args, "a");
            let b = crate::value::find_arg(args, "b");
            match (a, b) {
                (Some(Value::Int(x)), Some(Value::Int(y))) => match x.checked_add(*y) {
                    Some(c) => Ok(Value::Int(c)),
                    None => Err(String::from_str("arithmetic overflow")),
                },
                _ => Err(String::from_str("sum expects integer parameters")),
            }
        },
    }
}

} // verus!
