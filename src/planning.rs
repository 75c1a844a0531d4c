//! What the planning session reads from the collaborator's tool calls.
use vstd::prelude::*;

use crate::events::PlanEvent;
use crate::templates::{is_under, path_is_under};

verus! {

/// A tool call writes a file of the feature: the tool is `Write` and the
/// file lies under the feature's directory.
pub open spec fn writes_feature_file(tool: Seq<char>, path: Option<Seq<char>>, dir: Seq<char>) -> bool {
    tool == "Write"@ && match path {
        Some(p) => is_under(p, dir),
        None => false,
    }
}

/// The event for a tool call of the planning collaborator: the written file
/// and its content (empty where none is given) where the call writes a file
/// of the feature, otherwise none.
pub fn spec_file_event(
    tool_name: &str,
    file_path: Option<&str>,
    content: Option<&str>,
    feature_dir: &str,
) -> (r: Option<PlanEvent>)
    ensures
        r is Some <==> writes_feature_file(
            tool_name@,
            match file_path {
                Some(p) => Some(p@),
                None => None,
            },
            feature_dir@,
        ),
        r matches Some(e) ==> e matches PlanEvent::SpecGenerated { path, content: c } && file_path
            is Some && path@ == file_path->0@ && c@ == match content {
            Some(t) => t@,
            None => Seq::<char>::empty(),
        },
{
    let n = tool_name.unicode_len();
    proof {
        reveal_strlit("Write");
    }
    let is_write = n == 5 && tool_name.get_char(0) == 'W' && tool_name.get_char(1) == 'r'
        && tool_name.get_char(2) == 'i' && tool_name.get_char(3) == 't' && tool_name.get_char(4)
        == 'e';
    assert(is_write == (tool_name@ =~= "Write"@));
    if !is_write {
        return None;
    }
    match file_path {
        Some(p) => {
            if !path_is_under(p, feature_dir) {
                return None;
            }
            let c = match content {
                Some(t) => String::from_str(t),
                None => String::new(),
            };
            Some(PlanEvent::SpecGenerated { path: String::from_str(p), content: c })
        },
        None => None,
    }
}

} // verus!
