pub mod request;

use vstd::prelude::*;

verus! {

use vstd::string::StringExecFns;

use crate::endpoint::request::{Request, spec_resource, spec_resource_params};
use crate::text::str_eq;

/// How the parameter part of a path is rendered in the diagnostic message:
/// like its debug form, quoted when present.
pub open spec fn spec_params_debug(path: Seq<char>) -> Seq<char> {
    match spec_resource_params(path) {
        Some(p) => "Some(\""@ + p + "\")"@,
        None => "None"@,
    }
}

/// The diagnostic message the configuration resource answers with.
pub open spec fn spec_config_msg(path: Seq<char>) -> Seq<char> {
    "config handle for resource: "@ + spec_resource(path) + " and resource_params: "@
        + spec_params_debug(path) + " with query_string "@ + "[]"@
}

fn config_handle(request: Request<'_>) -> (r: Result<String, String>)
    ensures
        r matches Ok(m) && m@ == spec_config_msg(request.path@),
{
    let mut out = String::from_str("config handle for resource: ");
    out.append(request.resource());
    out.append(" and resource_params: ");
    match request.resource_params() {
        Some(p) => {
            out.append("Some(\"");
            out.append(p);
            out.append("\")");
        },
        None => {
            out.append("None");
        },
    }
    out.append(" with query_string ");
    out.append("[]");
    proof {
        assert(out@ =~= spec_config_msg(request.path@));
    }
    Ok(out)
}

fn error_handle(request: Request<'_>) -> (r: Result<String, String>)
    ensures
        r matches Err(m) && m@ == "Cannot find path "@ + spec_resource(request.path@),
{
    let mut out = String::from_str("Cannot find path ");
    out.append(request.resource());
    Err(out)
}

/// Routes a request path to its handler: the configuration resource answers
/// with its diagnostic message, and every other resource is unknown.
pub fn call(request_path: &str) -> (r: Result<String, String>)
    ensures
        spec_resource(request_path@) == "/config"@ ==> (r matches Ok(m) && m@ == spec_config_msg(
            request_path@,
        )),
        spec_resource(request_path@) != "/config"@ ==> (r matches Err(m) && m@
            == "Cannot find path "@ + spec_resource(request_path@)),
{
    let request: Request<'_> = Request::new(&request_path);
    let resource = request.resource();
    if str_eq(resource, "/config") {
        config_handle(request)
    } else {
        error_handle(request)
    }
}

} // verus!
