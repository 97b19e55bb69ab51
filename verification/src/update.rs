//! The notice of a newer release.

use crate::colors::{ColorScheme, Paint};
use vstd::prelude::*;

verus! {

/// A release that is newer than the running program.
#[derive(Clone, Debug)]
pub struct ReleaseInfo {
    pub version: String,
    pub url: String,
}

/// What the check for a newer release has come to: a failed check counts
/// as no newer release.
pub fn settled(check: Result<Option<ReleaseInfo>, String>) -> (update: Option<ReleaseInfo>)
    ensures
        update == (match check {
            Ok(found) => found,
            Err(_) => None,
        }),
{
    match check {
        Ok(found) => found,
        Err(_) => None,
    }
}

/// Whether the notice of a newer release is held back: a release that has
/// only just been published is not announced to an installation that
/// Homebrew manages, because Homebrew may not offer it yet.
pub open spec fn held_back(under_homebrew: bool, recent_release: bool) -> bool {
    under_homebrew && recent_release
}

/// The headline of the notice: the running version and the newer one.
pub open spec fn headline(cs: ColorScheme, build_version: Seq<char>, version: Seq<char>) -> Seq<
    char,
> {
    "\n\n"@ + cs.styled(Paint::Yellow, "A new release of oxide is available:"@) + " "@ + cs.styled(
        Paint::Cyan,
        build_version,
    ) + " \u{2192} "@ + cs.styled(Paint::Purple, version) + "\n\n"@
}

/// The advice on how to upgrade, for an installation that Homebrew
/// manages.
pub open spec fn upgrade_advice(under_homebrew: bool) -> Seq<char> {
    if under_homebrew {
        "To upgrade, run: brew update && brew upgrade oxide\n"@
    } else {
        Seq::<char>::empty()
    }
}

/// The notice of the release `version` at `url` for a program of version
/// `build_version`.
pub open spec fn notice(
    cs: ColorScheme,
    build_version: Seq<char>,
    version: Seq<char>,
    url: Seq<char>,
    under_homebrew: bool,
) -> Seq<char> {
    headline(cs, build_version, version) + upgrade_advice(under_homebrew) + cs.styled(
        Paint::Yellow,
        url,
    ) + "\n\n\n"@
}

/// What is written about `update`: the notice, unless there is no newer
/// release or the notice is held back.
pub open spec fn update_text(
    cs: ColorScheme,
    update: Option<ReleaseInfo>,
    build_version: Seq<char>,
    under_homebrew: bool,
    recent_release: bool,
) -> Seq<char> {
    match update {
        Some(release) => if held_back(under_homebrew, recent_release) {
            Seq::<char>::empty()
        } else {
            notice(cs, build_version, release.version@, release.url@, under_homebrew)
        },
        None => Seq::<char>::empty(),
    }
}

/// The notice of `release` for a program of version `build_version`.
pub fn notice_text(
    cs: &ColorScheme,
    release: &ReleaseInfo,
    build_version: &str,
    under_homebrew: bool,
) -> (text: String)
    ensures
        text@ == notice(*cs, build_version@, release.version@, release.url@, under_homebrew),
{
    let mut text = String::from_str("\n\n");
    let title = cs.yellow("A new release of oxide is available:");
    text.append(title.as_str());
    text.append(" ");
    let running = cs.cyan(build_version);
    text.append(running.as_str());
    text.append(" \u{2192} ");
    let latest = cs.purple(release.version.as_str());
    text.append(latest.as_str());
    text.append("\n\n");
    if under_homebrew {
        text.append("To upgrade, run: brew update && brew upgrade oxide\n");
    } else {
        assert(text@ + Seq::<char>::empty() =~= text@);
    }
    let link = cs.yellow(release.url.as_str());
    text.append(link.as_str());
    text.append("\n\n\n");
    text
}

} // verus!
