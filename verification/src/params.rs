//! Parameter lists for one dispatch round, one variant per supported arity.

use vstd::prelude::*;

verus! {

/// One parameter list for a single dispatch position, carrying exactly as many
/// values of `T` as the handler at that position declares. Dispatch succeeds
/// only when every position's parameter arity equals the live handler's arity.
pub enum CallbackParams<T: Copy> {
    CallParams0(),
    CallParams1(T),
    CallParams2(T, T),
    CallParams3(T, T, T),
    CallParams4(T, T, T, T),
    CallParams5(T, T, T, T, T),
    CallParams6(T, T, T, T, T, T),
    CallParams7(T, T, T, T, T, T, T),
    CallParams8(T, T, T, T, T, T, T, T),
    CallParams9(T, T, T, T, T, T, T, T, T),
    CallParams10(T, T, T, T, T, T, T, T, T, T),
    CallParams11(T, T, T, T, T, T, T, T, T, T, T),
    CallParams12(T, T, T, T, T, T, T, T, T, T, T, T),
}

impl<T: Copy> CallbackParams<T> {
    /// How many values this parameter list carries.
    pub open spec fn spec_arity(&self) -> nat {
        match *self {
            CallbackParams::CallParams0() => 0,
            CallbackParams::CallParams1(..) => 1,
            CallbackParams::CallParams2(..) => 2,
            CallbackParams::CallParams3(..) => 3,
            CallbackParams::CallParams4(..) => 4,
            CallbackParams::CallParams5(..) => 5,
            CallbackParams::CallParams6(..) => 6,
            CallbackParams::CallParams7(..) => 7,
            CallbackParams::CallParams8(..) => 8,
            CallbackParams::CallParams9(..) => 9,
            CallbackParams::CallParams10(..) => 10,
            CallbackParams::CallParams11(..) => 11,
            CallbackParams::CallParams12(..) => 12,
        }
    }

    /// The carried values, in position order.
    pub open spec fn spec_values(&self) -> Seq<T> {
        match *self {
            CallbackParams::CallParams0() => seq![],
            CallbackParams::CallParams1(p1) => seq![p1],
            CallbackParams::CallParams2(p1, p2) => seq![p1, p2],
            CallbackParams::CallParams3(p1, p2, p3) => seq![p1, p2, p3],
            CallbackParams::CallParams4(p1, p2, p3, p4) => seq![p1, p2, p3, p4],
            CallbackParams::CallParams5(p1, p2, p3, p4, p5) => seq![p1, p2, p3, p4, p5],
            CallbackParams::CallParams6(p1, p2, p3, p4, p5, p6) => seq![p1, p2, p3, p4, p5, p6],
            CallbackParams::CallParams7(p1, p2, p3, p4, p5, p6, p7) => seq![p1, p2, p3, p4, p5, p6, p7],
            CallbackParams::CallParams8(p1, p2, p3, p4, p5, p6, p7, p8) => seq![p1, p2, p3, p4, p5, p6, p7, p8],
            CallbackParams::CallParams9(p1, p2, p3, p4, p5, p6, p7, p8, p9) => seq![p1, p2, p3, p4, p5, p6, p7, p8, p9],
            CallbackParams::CallParams10(p1, p2, p3, p4, p5, p6, p7, p8, p9, p10) => seq![p1, p2, p3, p4, p5, p6, p7, p8, p9, p10],
            CallbackParams::CallParams11(p1, p2, p3, p4, p5, p6, p7, p8, p9, p10, p11) => seq![p1, p2, p3, p4, p5, p6, p7, p8, p9, p10, p11],
            CallbackParams::CallParams12(p1, p2, p3, p4, p5, p6, p7, p8, p9, p10, p11, p12) => seq![p1, p2, p3, p4, p5, p6, p7, p8, p9, p10, p11, p12],
        }
    }

    /// The arity of this parameter list, as a machine integer.
    pub fn arity(&self) -> (r: usize)
        ensures
            r as nat == self.spec_arity(),
    {
        match *self {
            CallbackParams::CallParams0() => 0,
            CallbackParams::CallParams1(..) => 1,
            CallbackParams::CallParams2(..) => 2,
            CallbackParams::CallParams3(..) => 3,
            CallbackParams::CallParams4(..) => 4,
            CallbackParams::CallParams5(..) => 5,
            CallbackParams::CallParams6(..) => 6,
            CallbackParams::CallParams7(..) => 7,
            CallbackParams::CallParams8(..) => 8,
            CallbackParams::CallParams9(..) => 9,
            CallbackParams::CallParams10(..) => 10,
            CallbackParams::CallParams11(..) => 11,
            CallbackParams::CallParams12(..) => 12,
        }
    }

    /// Copies the carried values out into a vector, in position order.
    pub fn values(&self) -> (r: Vec<T>)
        ensures
            r@ == self.spec_values(),
            r@.len() == self.spec_arity(),
    {
        let mut v: Vec<T> = Vec::new();
        match *self {
            CallbackParams::CallParams0() => {},
            CallbackParams::CallParams1(p1) => {
                v.push(p1);
            },
            CallbackParams::CallParams2(p1, p2) => {
                v.push(p1);
                v.push(p2);
            },
            CallbackParams::CallParams3(p1, p2, p3) => {
                v.push(p1);
                v.push(p2);
                v.push(p3);
            },
            CallbackParams::CallParams4(p1, p2, p3, p4) => {
                v.push(p1);
                v.push(p2);
                v.push(p3);
                v.push(p4);
            },
            CallbackParams::CallParams5(p1, p2, p3, p4, p5) => {
                v.push(p1);
                v.push(p2);
                v.push(p3);
                v.push(p4);
                v.push(p5);
            },
            CallbackParams::CallParams6(p1, p2, p3, p4, p5, p6) => {
                v.push(p1);
                v.push(p2);
                v.push(p3);
                v.push(p4);
                v.push(p5);
                v.push(p6);
            },
            CallbackParams::CallParams7(p1, p2, p3, p4, p5, p6, p7) => {
                v.push(p1);
                v.push(p2);
                v.push(p3);
                v.push(p4);
                v.push(p5);
                v.push(p6);
                v.push(p7);
            },
            CallbackParams::CallParams8(p1, p2, p3, p4, p5, p6, p7, p8) => {
                v.push(p1);
                v.push(p2);
                v.push(p3);
                v.push(p4);
                v.push(p5);
                v.push(p6);
                v.push(p7);
                v.push(p8);
            },
            CallbackParams::CallParams9(p1, p2, p3, p4, p5, p6, p7, p8, p9) => {
                v.push(p1);
                v.push(p2);
                v.push(p3);
                v.push(p4);
                v.push(p5);
                v.push(p6);
                v.push(p7);
                v.push(p8);
                v.push(p9);
            },
            CallbackParams::CallParams10(p1, p2, p3, p4, p5, p6, p7, p8, p9, p10) => {
                v.push(p1);
                v.push(p2);
                v.push(p3);
                v.push(p4);
                v.push(p5);
                v.push(p6);
                v.push(p7);
                v.push(p8);
                v.push(p9);
                v.push(p10);
            },
            CallbackParams::CallParams11(p1, p2, p3, p4, p5, p6, p7, p8, p9, p10, p11) => {
                v.push(p1);
                v.push(p2);
                v.push(p3);
                v.push(p4);
                v.push(p5);
                v.push(p6);
                v.push(p7);
                v.push(p8);
                v.push(p9);
                v.push(p10);
                v.push(p11);
            },
            CallbackParams::CallParams12(p1, p2, p3, p4, p5, p6, p7, p8, p9, p10, p11, p12) => {
                v.push(p1);
                v.push(p2);
                v.push(p3);
                v.push(p4);
                v.push(p5);
                v.push(p6);
                v.push(p7);
                v.push(p8);
                v.push(p9);
                v.push(p10);
                v.push(p11);
                v.push(p12);
            },
        }
        proof {
            assert(v@ =~= self.spec_values());
        }
        v
    }
}

} // verus!
