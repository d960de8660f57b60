//! The delivery dispatcher's outcome classification and the response mapper:
//! every result becomes a uniform envelope with an HTTP status.

use vstd::prelude::*;
use vstd::string::StringExecFns;
use crate::errors::DeliveryError;
use crate::settings::{json_error, RustMailRes, Status};

verus! {

/// Health check: always HTTP 200 with status `ok` and a fixed message,
/// whatever the SMTP configuration looks like.
pub fn do_health_check() -> (r: (u16, RustMailRes))
    ensures
        r.0 == 200,
        r.1.status is Okay,
        r.1.message@ == "Rust mail up"@,
{
    (200, RustMailRes { status: Status::Okay, message: "Rust mail up".to_owned() })
}

/// The comma-joined recipient list, in order.
pub open spec fn joined(to: Seq<Seq<char>>) -> Seq<char>
    decreases to.len(),
{
    if to.len() == 0 {
        Seq::empty()
    } else if to.len() == 1 {
        to[0]
    } else {
        joined(to.drop_last()) + ", "@ + to.last()
    }
}

/// The success message reported after a send.
pub open spec fn sent_text(to: Seq<Seq<char>>) -> Seq<char> {
    "Mail sent to "@ + joined(to)
}

/// Compose the success message `Mail sent to <comma-joined recipients>`.
pub fn success_message(to: &Vec<String>) -> (r: String)
    ensures
        r@ == sent_text(to.deep_view()),
{
    let ghost dv = to.deep_view();
    let mut r: String = "Mail sent to ".to_owned();
    let mut i: usize = 0;
    while i < to.len()
        invariant
            i <= to.len(),
            dv == to.deep_view(),
            dv.len() == to.len(),
            r@ == "Mail sent to "@ + joined(dv.subrange(0, i as int)),
        decreases to.len() - i,
    {
        if i > 0 {
            r.append(", ");
        }
        r.append(to[i].as_str());
        proof {
            assert(dv.subrange(0, i + 1).drop_last() =~= dv.subrange(0, i as int));
            assert(dv.subrange(0, i + 1).last() == dv[i as int]);
            if i == 0 {
                assert(joined(dv.subrange(0, 1)) == dv.subrange(0, 1)[0]);
                assert(r@ =~= "Mail sent to "@ + joined(dv.subrange(0, 1)));
            } else {
                assert(r@ =~= "Mail sent to "@ + joined(dv.subrange(0, i + 1)));
            }
        }
        i = i + 1;
    }
    proof {
        assert(dv.subrange(0, to.len() as int) =~= dv);
    }
    r
}

/// Classify the outcome of a single send attempt: success passes through,
/// and any rejection detail becomes a delivery error carrying it.
pub fn dispatch_outcome(outcome: Result<(), String>) -> (r: Result<(), DeliveryError>)
    ensures
        r is Ok <==> outcome is Ok,
        r is Err ==> r->Err_0 is Smtp && r->Err_0.detail() == outcome->Err_0@,
{
    match outcome {
        Ok(u) => Ok(u),
        Err(d) => Err(DeliveryError::Smtp(d)),
    }
}

/// Map a delivery outcome to the final response: success reports the
/// recipients the mail went to with HTTP 200; failure becomes the uniform
/// error envelope with HTTP 500.
pub fn send_response(outcome: Result<(), DeliveryError>, to: &Vec<String>) -> (r: (
    u16,
    RustMailRes,
))
    ensures
        outcome is Ok ==> r.0 == 200 && r.1.status is Okay && r.1.message@ == sent_text(
            to.deep_view(),
        ),
        outcome is Err ==> r.0 == 500 && r.1.status is Error && r.1.message@
            == outcome->Err_0.detail(),
{
    match outcome {
        Ok(_) => (200, RustMailRes { status: Status::Okay, message: success_message(to) }),
        Err(e) => json_error(e.message()),
    }
}

} // verus!
