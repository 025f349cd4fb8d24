//! The decision core of the remote-invocation collaborator.
//!
//! Performing an invocation is outside work: resolving the name, making the
//! call and collecting the out-parameters belong to the unverified
//! boundary.  What is decidable from plain values — which failure a status
//! code names — is classified here.

use vstd::prelude::*;

use crate::convert::encode;
use crate::convert::encode_spec;
use crate::convert::VariantConversionError;
use crate::variant::Variant;
use crate::wire::WireVariant;

verus! {

/// The status code an invocation returns when the callee raised an
/// exception.
pub const DISP_E_EXCEPTION: i32 = -0x7FFD_FFF7;

/// The status code an invocation returns when an argument's type does not
/// match the parameter.
pub const DISP_E_TYPEMISMATCH: i32 = -0x7FFD_FFFB;

/// The status code an invocation returns when a required parameter was not
/// supplied.
pub const DISP_E_PARAMNOTFOUND: i32 = -0x7FFD_FFFC;

/// What went wrong with a single argument of an invocation.
#[derive(Clone, Copy, Debug, PartialEq, Eq, Structural)]
pub enum ComArgumentError {
    /// The value's type does not match the expected type for the parameter.
    TypeMismatch,
    /// A required parameter was missing.
    ParameterNotFound,
}

/// Why an invocation failed.
#[derive(Clone, Copy, Debug, PartialEq, Eq, Structural)]
pub enum IDispatchError {
    /// Converting an argument or the result failed.
    VariantConversion(VariantConversionError),
    /// Converting the member name to its wire form failed.
    StringConversion,
    /// The invocation returned a status code with no finer meaning here.
    GenericWin32(i32),
    /// The callee raised an exception.
    Exception,
    /// One argument was rejected; carries the fault and the argument's
    /// index as reported by the callee.
    Argument(ComArgumentError, usize),
}

/// Classifies the failing status code of an invocation, together with the
/// reported argument index, into the failure it names.
pub fn classify_invoke_error(code: i32, arg_err: u32) -> (e: IDispatchError)
    ensures
        code == DISP_E_EXCEPTION ==> e == IDispatchError::Exception,
        code == DISP_E_TYPEMISMATCH ==> e == IDispatchError::Argument(
            ComArgumentError::TypeMismatch,
            arg_err as usize,
        ),
        code == DISP_E_PARAMNOTFOUND ==> e == IDispatchError::Argument(
            ComArgumentError::ParameterNotFound,
            arg_err as usize,
        ),
        code != DISP_E_EXCEPTION && code != DISP_E_TYPEMISMATCH && code != DISP_E_PARAMNOTFOUND
            ==> e == IDispatchError::GenericWin32(code),
{
    if code == DISP_E_EXCEPTION {
        IDispatchError::Exception
    } else if code == DISP_E_TYPEMISMATCH {
        IDispatchError::Argument(ComArgumentError::TypeMismatch, arg_err as usize)
    } else if code == DISP_E_PARAMNOTFOUND {
        IDispatchError::Argument(ComArgumentError::ParameterNotFound, arg_err as usize)
    } else {
        IDispatchError::GenericWin32(code)
    }
}

/// Marshals the arguments of a method invocation: the wire convention
/// wants them in reverse order, each encoded as a wire value.  The
/// boundary hands the resulting block to the call as it stands.
pub fn encode_args(args: Vec<Variant>) -> (r: Result<Vec<WireVariant>, IDispatchError>)
    ensures
        r matches Ok(ws) && ws@.len() == args@.len() && (forall|i: int|
            0 <= i < args@.len() ==> #[trigger] ws@[i]@ == encode_spec(
                args@[args@.len() - 1 - i]@,
            )),
{
    let mut rest = args;
    let mut out: Vec<WireVariant> = Vec::new();
    let ghost orig = rest@;
    while rest.len() > 0
        invariant
            rest@ == orig.take(rest@.len() as int),
            out@.len() + rest@.len() == orig.len(),
            forall|i: int|
                0 <= i < out@.len() ==> #[trigger] out@[i]@ == encode_spec(
                    orig[orig.len() - 1 - i]@,
                ),
        decreases rest.len(),
    {
        let v = rest.pop().unwrap();
        match encode(v) {
            Ok(w) => {
                out.push(w);
            },
            Err(_) => {
                proof {
                    assert(false);
                }
            },
        }
        proof {
            assert(rest@ =~= orig.take(rest@.len() as int));
        }
    }
    Ok(out)
}

} // verus!
