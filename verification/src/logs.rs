//! The log fetcher's derivations: which log stream a finished task wrote to,
//! and whether the selected container is configured for log retrieval at
//! all. The log backend call itself is the caller's; this module only
//! decides whether to make it and with what names.

use vstd::prelude::*;
use crate::model::ContainerDefinition;
use crate::text::find_last;
use crate::text::scan_last;

verus! {

/// The trailing path segment of a task identifier: everything after the last
/// `/`, or the whole identifier when it holds none.
pub open spec fn short_id_of(s: Seq<char>) -> Seq<char> {
    match find_last(s, '/') {
        None => s,
        Some(i) => s.skip(i + 1),
    }
}

/// Extracts the trailing path segment of the task identifier.
pub fn short_task_id(arn: &str) -> (r: String)
    ensures
        r@ == short_id_of(arn@),
{
    let n = arn.unicode_len();
    match scan_last(arn, '/') {
        None => arn.to_owned(),
        Some(i) => {
            let r = arn.substring_char(i + 1, n).to_owned();
            proof {
                assert(r@ =~= short_id_of(arn@));
            }
            r
        },
    }
}

/// The log stream name a run writes to: `<prefix>/<containerName>/<taskShortId>`.
pub open spec fn stream_name_of(prefix: Seq<char>, container: Seq<char>, short_id: Seq<
    char,
>) -> Seq<char> {
    prefix + seq!['/'] + container + seq!['/'] + short_id
}

/// Composes the log stream name from its three parts.
pub fn log_stream_name(prefix: &str, container_name: &str, short_id: &str) -> (r: String)
    ensures
        r@ == stream_name_of(prefix@, container_name@, short_id@),
{
    let mut r = prefix.to_owned();
    r.append("/");
    r.append(container_name);
    r.append("/");
    r.append(short_id);
    proof {
        reveal_strlit("/");
        assert(r@ =~= stream_name_of(prefix@, container_name@, short_id@));
    }
    r
}

/// Whether the container's log configuration exposes all three options the
/// log fetcher needs: group, region and stream prefix.
pub open spec fn full_log_options(cd: ContainerDefinition) -> bool {
    &&& cd.log_configuration matches Some(lc)
    &&& lc.options matches Some(o)
    &&& o.group is Some
    &&& o.region is Some
    &&& o.stream_prefix is Some
}

/// The one "get log events" call to make for a finished task: its log group,
/// the region the log client must be scoped to (which may differ from the
/// orchestration backend's), and the derived stream name.
pub struct LogQuery {
    pub group: String,
    pub region: String,
    pub stream_name: String,
}

/// Decides whether logs can be fetched for the run, and for which stream.
/// When the log configuration or any of its three options is absent, the
/// stage is skipped entirely: that is a notice, not an error.
pub fn log_query(container: ContainerDefinition, task_short_id: &str) -> (r: Option<LogQuery>)
    requires
        full_log_options(container) ==> container.name is Some,
    ensures
        r is Some <==> full_log_options(container),
        r matches Some(q) ==> {
            &&& container.log_configuration matches Some(lc)
            &&& lc.options matches Some(o)
            &&& o.group matches Some(g)
            &&& q.group == g
            &&& o.region matches Some(rg)
            &&& q.region == rg
            &&& q.stream_name@ == stream_name_of(
                o.stream_prefix->0@,
                container.name->0@,
                task_short_id@,
            )
        },
{
    match container.log_configuration {
        Some(lc) => match lc.options {
            Some(o) => match (o.group, o.region, o.stream_prefix) {
                (Some(g), Some(rg), Some(p)) => {
                    let name = container.name.unwrap();
                    let stream = log_stream_name(p.as_str(), name.as_str(), task_short_id);
                    Some(LogQuery { group: g, region: rg, stream_name: stream })
                },
                _ => None,
            },
            None => None,
        },
        None => None,
    }
}

} // verus!
