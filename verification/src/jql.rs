//! Composition of the tracker query out of the filter configuration.
//!
//! The query is the clauses `assignee=currentuser()` (when the "mine" filter
//! is on), `status=3` or `status="Prioritised"` (in progress or not), and
//! `project = "<key>"` (when a project key is set), joined with ` AND `.
//! The status clause is always present, so the join reduces to an optional
//! prefix and an optional suffix around it.

use vstd::prelude::*;
use vstd::string::StringExecFns;
use crate::config::{Config, ConfigView};

verus! {

/// The query text that [`issues_query`] composes for a configuration.
pub open spec fn spec_issues_query(c: ConfigView) -> Seq<char> {
    (if c.filter_mine {
        "assignee=currentuser()"@ + " AND "@
    } else {
        Seq::<char>::empty()
    }) + (if c.filter_in_progress {
        "status=3"@
    } else {
        "status=\"Prioritised\""@
    }) + (if c.default_project_key.len() > 0 {
        " AND "@ + "project = \""@ + c.default_project_key + "\""@
    } else {
        Seq::<char>::empty()
    })
}

/// The query the tracker is asked with when tickets are fetched under
/// `config`.
pub fn issues_query(config: &Config) -> (r: String)
    ensures
        r@ == spec_issues_query(config@),
{
    let mut q = String::new();
    if config.filter_mine {
        q.append("assignee=currentuser()");
        q.append(" AND ");
    }
    if config.filter_in_progress {
        q.append("status=3");
    } else {
        q.append("status=\"Prioritised\"");
    }
    if !config.default_project_key.as_str().is_empty() {
        q.append(" AND ");
        q.append("project = \"");
        q.append(config.default_project_key.as_str());
        q.append("\"");
    }
    proof {
        assert(q@ =~= spec_issues_query(config@));
    }
    q
}

} // verus!
