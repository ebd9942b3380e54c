//! The container runtime's listing, and what the server says after an action on a
//! container.

use crate::api::{ContainerInfo, ContainerInfoView};
use crate::text::{followed_by, lines_of, pieces_of, split_at_char, split_lines};
use vstd::prelude::*;
use vstd::string::StringExecFns;

verus! {

/// The format in which the runtime is asked to list the containers: identifier, name,
/// state and status, separated by tabs.
pub const LISTING_FORMAT: &'static str = "{{.ID}}\t{{.Names}}\t{{.State}}\t{{.Status}}";

/// The container that a line of the listing describes: its first four tab-separated
/// fields; none where the line has fewer than four.
pub open spec fn container_of(line: Seq<char>) -> Option<ContainerInfoView> {
    let fields = pieces_of(line, '\t');
    if fields.len() >= 4 {
        Some(
            ContainerInfoView {
                id: fields[0],
                name: fields[1],
                state: fields[2],
                status: fields[3],
            },
        )
    } else {
        None
    }
}

/// The containers that the lines describe, in the order of the lines; lines that
/// describe none are passed over.
pub open spec fn containers_of(lines: Seq<Seq<char>>) -> Seq<ContainerInfoView>
    decreases lines.len(),
{
    if lines.len() == 0 {
        Seq::empty()
    } else {
        let before = containers_of(lines.drop_last());
        match container_of(lines.last()) {
            Some(container) => before.push(container),
            None => before,
        }
    }
}

/// Reads one line of the listing.
pub fn parse_container_line(line: &str) -> (container: Option<ContainerInfo>)
    ensures
        container.deep_view() == container_of(line@),
{
    let parts = split_at_char(line, '\t');
    if parts.len() >= 4 {
        Some(
            ContainerInfo {
                id: parts[0].clone(),
                name: parts[1].clone(),
                state: parts[2].clone(),
                status: parts[3].clone(),
            },
        )
    } else {
        None
    }
}

/// Reads the listing that the runtime printed.
pub fn parse_containers(listing: &str) -> (containers: Vec<ContainerInfo>)
    ensures
        containers.deep_view() == containers_of(lines_of(listing@)),
{
    let lines = split_lines(listing);
    let mut containers: Vec<ContainerInfo> = Vec::new();
    let mut i: usize = 0;
    while i < lines.len()
        invariant
            i <= lines.len(),
            containers.deep_view() == containers_of(lines.deep_view().take(i as int)),
        decreases lines.len() - i,
    {
        let ghost before = containers.deep_view();
        assert(lines.deep_view().take(i + 1).drop_last() =~= lines.deep_view().take(i as int));
        assert(lines.deep_view().take(i + 1).last() == lines[i as int]@);
        match parse_container_line(lines[i].as_str()) {
            Some(container) => {
                containers.push(container);
                assert(containers.deep_view() =~= before.push(container@));
            },
            None => {},
        }
        i += 1;
    }
    assert(lines.deep_view().take(lines.len() as int) =~= lines.deep_view());
    containers
}

/// What has been done to a container once `action` has succeeded: `started`, `stopped`
/// or `restarted`; an action that is none of the three is repeated as it is.
pub open spec fn past_tense_of(action: Seq<char>) -> Seq<char> {
    if action == "start"@ {
        "started"@
    } else if action == "stop"@ {
        "stopped"@
    } else if action == "restart"@ {
        "restarted"@
    } else {
        action
    }
}

/// What the server says after `action` has succeeded on a container.
pub fn action_message(action: &str) -> (message: String)
    ensures
        message@ == "container "@ + past_tense_of(action@),
{
    let past_tense = if *action == *"start" {
        "started"
    } else if *action == *"stop" {
        "stopped"
    } else if *action == *"restart" {
        "restarted"
    } else {
        action
    };
    followed_by("container ", past_tense)
}

/// How long an action on a container may take, in seconds.
pub const ACTION_TIMEOUT_SECS: u64 = 120;

/// What the server answers after `action` has run out of time: 408 and a note.
pub fn timeout_failure(action: &str) -> (failure: (u16, String))
    ensures
        failure.0 == 408,
        failure.1@ == "docker "@ + action@ + " timed out"@,
{
    let mut message = followed_by("docker ", action);
    message.append(" timed out");
    (408, message)
}

/// What the server answers after `action` has failed for the reason `detail`: 500 and
/// the reason.
pub fn action_failure(action: &str, detail: &str) -> (failure: (u16, String))
    ensures
        failure.0 == 500,
        failure.1@ == "docker "@ + action@ + " failed: "@ + detail@,
{
    let mut message = followed_by("docker ", action);
    message.append(" failed: ");
    message.append(detail);
    (500, message)
}

/// What the server answers where the runtime could not be asked for its listing (it
/// did not start, `started` false) or refused it: 500 and the reason.
pub fn listing_failure(started: bool, detail: &str) -> (failure: (u16, String))
    ensures
        failure.0 == 500,
        failure.1@ == if started {
            "Docker command failed: "@ + detail@
        } else {
            "Failed to execute docker command: "@ + detail@
        },
{
    if started {
        (500, followed_by("Docker command failed: ", detail))
    } else {
        (500, followed_by("Failed to execute docker command: ", detail))
    }
}

} // verus!
