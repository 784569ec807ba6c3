//! Invocation dispatch: one call shape per supported number of arguments.
use vstd::prelude::*;
use crate::error::LoadError;

verus! {

/// The longest argument list that the dispatcher takes: eight arguments,
/// sixteen in the extended mode.
pub open spec fn max_arity(extended: bool) -> nat {
    if extended {
        16
    } else {
        8
    }
}

/// An argument list, tagged with its length. Each slot holds one argument in
/// the pointer-sized representation that caller and callee agree on.
#[derive(Debug, Clone, Copy, PartialEq, Eq, Structural)]
pub enum Call {
    Call0,
    Call1(u64),
    Call2(u64, u64),
    Call3(u64, u64, u64),
    Call4(u64, u64, u64, u64),
    Call5(u64, u64, u64, u64, u64),
    Call6(u64, u64, u64, u64, u64, u64),
    Call7(u64, u64, u64, u64, u64, u64, u64),
    Call8(u64, u64, u64, u64, u64, u64, u64, u64),
    Call9(u64, u64, u64, u64, u64, u64, u64, u64, u64),
    Call10(u64, u64, u64, u64, u64, u64, u64, u64, u64, u64),
    Call11(u64, u64, u64, u64, u64, u64, u64, u64, u64, u64, u64),
    Call12(u64, u64, u64, u64, u64, u64, u64, u64, u64, u64, u64, u64),
    Call13(u64, u64, u64, u64, u64, u64, u64, u64, u64, u64, u64, u64, u64),
    Call14(u64, u64, u64, u64, u64, u64, u64, u64, u64, u64, u64, u64, u64, u64),
    Call15(u64, u64, u64, u64, u64, u64, u64, u64, u64, u64, u64, u64, u64, u64, u64),
    Call16(u64, u64, u64, u64, u64, u64, u64, u64, u64, u64, u64, u64, u64, u64, u64, u64),
}

impl Call {
    /// The arguments, in the order in which the callee takes them.
    pub open spec fn args(self) -> Seq<u64> {
        match self {
            Call::Call0 => Seq::empty(),
            Call::Call1(p0) => seq![p0],
            Call::Call2(p0, p1) => seq![p0, p1],
            Call::Call3(p0, p1, p2) => seq![p0, p1, p2],
            Call::Call4(p0, p1, p2, p3) => seq![p0, p1, p2, p3],
            Call::Call5(p0, p1, p2, p3, p4) => seq![p0, p1, p2, p3, p4],
            Call::Call6(p0, p1, p2, p3, p4, p5) => seq![p0, p1, p2, p3, p4, p5],
            Call::Call7(p0, p1, p2, p3, p4, p5, p6) => seq![p0, p1, p2, p3, p4, p5, p6],
            Call::Call8(p0, p1, p2, p3, p4, p5, p6, p7) => seq![p0, p1, p2, p3, p4, p5, p6, p7],
            Call::Call9(
                p0, p1, p2, p3, p4, p5, p6, p7, p8
            ) => seq![p0, p1, p2, p3, p4, p5, p6, p7, p8],
            Call::Call10(
                p0, p1, p2, p3, p4, p5, p6, p7, p8, p9
            ) => seq![p0, p1, p2, p3, p4, p5, p6, p7, p8, p9],
            Call::Call11(
                p0, p1, p2, p3, p4, p5, p6, p7, p8, p9, p10
            ) => seq![p0, p1, p2, p3, p4, p5, p6, p7, p8, p9, p10],
            Call::Call12(
                p0, p1, p2, p3, p4, p5, p6, p7, p8, p9, p10, p11
            ) => seq![p0, p1, p2, p3, p4, p5, p6, p7, p8, p9, p10, p11],
            Call::Call13(
                p0, p1, p2, p3, p4, p5, p6, p7, p8, p9, p10, p11, p12
            ) => seq![p0, p1, p2, p3, p4, p5, p6, p7, p8, p9, p10, p11, p12],
            Call::Call14(
                p0, p1, p2, p3, p4, p5, p6, p7, p8, p9, p10, p11, p12, p13
            ) => seq![p0, p1, p2, p3, p4, p5, p6, p7, p8, p9, p10, p11, p12, p13],
            Call::Call15(
                p0, p1, p2, p3, p4, p5, p6, p7, p8, p9, p10, p11, p12, p13, p14
            ) => seq![p0, p1, p2, p3, p4, p5, p6, p7, p8, p9, p10, p11, p12, p13, p14],
            Call::Call16(
                p0, p1, p2, p3, p4, p5, p6, p7, p8, p9, p10, p11, p12, p13, p14, p15
            ) => seq![p0, p1, p2, p3, p4, p5, p6, p7, p8, p9, p10, p11, p12, p13, p14, p15],
        }
    }

    /// The number of arguments.
    pub fn arity(&self) -> (n: usize)
        ensures
            n == self.args().len(),
    {
        match self {
            Call::Call0 => 0,
            Call::Call1(..) => 1,
            Call::Call2(..) => 2,
            Call::Call3(..) => 3,
            Call::Call4(..) => 4,
            Call::Call5(..) => 5,
            Call::Call6(..) => 6,
            Call::Call7(..) => 7,
            Call::Call8(..) => 8,
            Call::Call9(..) => 9,
            Call::Call10(..) => 10,
            Call::Call11(..) => 11,
            Call::Call12(..) => 12,
            Call::Call13(..) => 13,
            Call::Call14(..) => 14,
            Call::Call15(..) => 15,
            Call::Call16(..) => 16,
        }
    }

    /// The call for the argument list `args`, chosen by its length. The
    /// dispatcher takes up to eight arguments, and up to sixteen where
    /// `extended` is set.
    pub fn select(args: &[u64], extended: bool) -> (r: Result<Call, LoadError>)
        ensures
            match r {
                Ok(call) => args@.len() <= max_arity(extended) && call.args() == args@,
                Err(e) => args@.len() > max_arity(extended) && e == LoadError::UnsupportedArity,
            },
    {
        let p = args;
        let n = p.len();
        if n > 8 && !extended {
            return Err(LoadError::UnsupportedArity);
        }
        let call = match n {
            0 => Call::Call0,
            1 => Call::Call1(p[0]),
            2 => Call::Call2(p[0], p[1]),
            3 => Call::Call3(p[0], p[1], p[2]),
            4 => Call::Call4(p[0], p[1], p[2], p[3]),
            5 => Call::Call5(p[0], p[1], p[2], p[3], p[4]),
            6 => Call::Call6(p[0], p[1], p[2], p[3], p[4], p[5]),
            7 => Call::Call7(p[0], p[1], p[2], p[3], p[4], p[5], p[6]),
            8 => Call::Call8(p[0], p[1], p[2], p[3], p[4], p[5], p[6], p[7]),
            9 => Call::Call9(p[0], p[1], p[2], p[3], p[4], p[5], p[6], p[7], p[8]),
            10 => Call::Call10(p[0], p[1], p[2], p[3], p[4], p[5], p[6], p[7], p[8], p[9]),
            11 => Call::Call11(p[0], p[1], p[2], p[3], p[4], p[5], p[6], p[7], p[8], p[9], p[10]),
            12 => Call::Call12(
                p[0], p[1], p[2], p[3], p[4], p[5], p[6], p[7], p[8], p[9], p[10], p[11]
            ),
            13 => Call::Call13(
                p[0], p[1], p[2], p[3], p[4], p[5], p[6], p[7], p[8], p[9], p[10], p[11], p[12]
            ),
            14 => Call::Call14(
                p[0], p[1], p[2], p[3], p[4], p[5], p[6], p[7], p[8], p[9], p[10], p[11], p[12],
                p[13]
            ),
            15 => Call::Call15(
                p[0], p[1], p[2], p[3], p[4], p[5], p[6], p[7], p[8], p[9], p[10], p[11], p[12],
                p[13], p[14]
            ),
            16 => Call::Call16(
                p[0], p[1], p[2], p[3], p[4], p[5], p[6], p[7], p[8], p[9], p[10], p[11], p[12],
                p[13], p[14], p[15]
            ),
            _ => {
                return Err(LoadError::UnsupportedArity);
            },
        };
        Ok(call)
    }
}

/// A call that is ready to be made: the address of the entry point and the
/// arguments to hand to it.
#[derive(Debug, Clone, Copy, PartialEq, Eq, Structural)]
pub struct Invocation {
    pub entry: u64,
    pub call: Call,
}

} // verus!
