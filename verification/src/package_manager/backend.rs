//! What the outcomes of the tools' commands mean. The four backends differ in
//! the commands they name and in little else, so they read outcomes here.

use crate::command::{decode_lossy, joined, lossy_text, CommandOutcome, OutcomeView};
use crate::package_manager::listing::{
    empty_listing, listing_of, read_listing, Format, Listing, ListingView,
};
use vstd::prelude::*;
use vstd::string::StringExecFns;
use vstd::utf8::{decode_utf8, encode_utf8_decode_utf8, valid_utf8};

verus! {

/// The result of a check for updates as contracts speak of it.
pub open spec fn checked_view(result: Result<Listing, String>) -> Result<ListingView, Seq<char>> {
    match result {
        Ok(listing) => Ok(listing@),
        Err(message) => Err(message@),
    }
}

/// The result of an operation that gives nothing back, as contracts speak of it.
pub open spec fn done_view(result: Result<(), String>) -> Result<(), Seq<char>> {
    match result {
        Ok(_) => Ok(()),
        Err(message) => Err(message@),
    }
}

impl Format {
    /// The program that prints the listing.
    pub open spec fn tool(self) -> Seq<char> {
        match self {
            Format::Apt => "apt"@,
            Format::Pacman => "checkupdates"@,
            Format::Paru => "paru"@,
            Format::Yay => "yay"@,
        }
    }

    /// The program that prints the listing.
    pub fn tool_text(self) -> (out: &'static str)
        ensures
            out@ == self.tool(),
    {
        match self {
            Format::Apt => "apt",
            Format::Pacman => "checkupdates",
            Format::Paru => "paru",
            Format::Yay => "yay",
        }
    }
}

/// What the outcome of a listing command means. A tool that could not be
/// started is an error. Output of a tool that ended well is read as a listing.
/// A tool that ended badly is an error for APT; for the Pacman family it only
/// means that there is nothing to update.
pub open spec fn updates_of(format: Format, outcome: OutcomeView) -> Result<
    ListingView,
    Seq<char>,
> {
    match outcome {
        OutcomeView::LaunchFailed(reason) => Err(
            "Failed to run "@ + format.tool() + ": "@ + reason,
        ),
        OutcomeView::Exited { success, stdout, .. } => if success {
            Ok(listing_of(format, lossy_text(stdout)))
        } else if format is Apt {
            Err("apt command failed"@)
        } else {
            Ok(empty_listing())
        },
    }
}

/// Reads the outcome of a listing command.
pub fn read_updates(format: Format, outcome: CommandOutcome) -> (result: Result<Listing, String>)
    ensures
        checked_view(result) == updates_of(format, outcome@),
        (outcome@ matches OutcomeView::Exited { success, stdout, .. } && success && valid_utf8(
            stdout,
        )) ==> checked_view(result) == Ok::<ListingView, Seq<char>>(
            listing_of(format, decode_utf8(outcome@->stdout)),
        ),
        result matches Ok(listing) ==> forall|i: int|
            0 <= i < listing.packages.len() ==> {
                &&& (#[trigger] listing.packages[i])@.well_formed()
                &&& listing.packages[i].is_aur == format.from_aur()
            },
{
    match outcome {
        CommandOutcome::LaunchFailed(reason) => {
            let mut message = joined("Failed to run ", format.tool_text());
            message.append(": ");
            message.append(reason.as_str());
            Err(message)
        },
        CommandOutcome::Exited { success, stdout, stderr } => {
            if success {
                let text = decode_lossy(stdout.as_slice());
                proof {
                    encode_utf8_decode_utf8(text@);
                }
                Ok(read_listing(format, text.as_str()))
            } else {
                match format {
                    Format::Apt => Err("apt command failed".to_owned()),
                    _ => {
                        let listing = Listing { packages: Vec::new(), skipped: Vec::new() };
                        proof {
                            assert(listing.packages.deep_view() == empty_listing().packages);
                            assert(listing.skipped.deep_view() == empty_listing().skipped);
                        }
                        Ok(listing)
                    },
                }
            }
        },
    }
}

/// What came of starting a terminal. Only the start counts: what happens in
/// the terminal afterwards is not seen.
pub open spec fn launch_of(terminal: Seq<char>, spawned: Result<(), Seq<char>>) -> Result<
    (),
    Seq<char>,
> {
    match spawned {
        Ok(_) => Ok(()),
        Err(reason) => Err("Failed to launch terminal '"@ + terminal + "': "@ + reason),
    }
}

/// Reads what came of starting the terminal `terminal`.
pub fn read_launch(terminal: &str, spawned: Result<(), String>) -> (result: Result<(), String>)
    ensures
        done_view(result) == launch_of(terminal@, done_view(spawned)),
{
    match spawned {
        Ok(_) => Ok(()),
        Err(reason) => {
            let mut message = joined("Failed to launch terminal '", terminal);
            message.append("': ");
            message.append(reason.as_str());
            Err(message)
        },
    }
}

/// A tool is taken to be at work where one of its lock files exists or the
/// search for its processes found one. A search that could not be made found
/// none.
pub open spec fn running_of(locks: Seq<bool>, probe: OutcomeView) -> bool {
    locks.contains(true) || probe.succeeded()
}

/// Whether a tool is at work, from the presence of each of its lock files and
/// from the outcome of the search for its processes.
pub fn read_running(locks: &[bool], probe: &CommandOutcome) -> (running: bool)
    ensures
        running == running_of(locks@, probe@),
{
    let mut i: usize = 0;
    while i < locks.len()
        invariant
            i <= locks.len(),
            forall|j: int| 0 <= j < i ==> !locks@[j],
        decreases locks.len() - i,
    {
        if locks[i] {
            assert(locks@[i as int] == true);
            return true;
        }
        i += 1;
    }
    probe.succeeded()
}

/// What the outcome of a refresh command means: a tool that could not be
/// started or that ended badly is an error, the latter with what the tool
/// wrote to its standard error.
pub open spec fn refresh_of(outcome: OutcomeView) -> Result<(), Seq<char>> {
    match outcome {
        OutcomeView::LaunchFailed(reason) => Err("Failed to refresh cache: "@ + reason),
        OutcomeView::Exited { success, stderr, .. } => if success {
            Ok(())
        } else {
            Err("Cache refresh failed: "@ + lossy_text(stderr))
        },
    }
}

/// Reads the outcome of a refresh command.
pub fn read_refresh(outcome: CommandOutcome) -> (result: Result<(), String>)
    ensures
        done_view(result) == refresh_of(outcome@),
        (outcome@ matches OutcomeView::Exited { success, stderr, .. } && !success && valid_utf8(
            stderr,
        )) ==> done_view(result) == Err::<(), Seq<char>>(
            "Cache refresh failed: "@ + decode_utf8(outcome@->stderr),
        ),
{
    match outcome {
        CommandOutcome::LaunchFailed(reason) => Err(
            joined("Failed to refresh cache: ", reason.as_str()),
        ),
        CommandOutcome::Exited { success, stdout, stderr } => {
            if success {
                Ok(())
            } else {
                let text = decode_lossy(stderr.as_slice());
                proof {
                    encode_utf8_decode_utf8(text@);
                }
                Err(joined("Cache refresh failed: ", text.as_str()))
            }
        },
    }
}

} // verus!
