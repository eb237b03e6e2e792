//! Where a Java runtime is looked for, and in which order.

use vstd::prelude::*;
use vstd::string::*;
use crate::text::texts;

verus! {

/// The kind of system that the launcher runs on.
#[derive(Clone, Copy, Debug, PartialEq, Eq, Structural)]
pub enum Platform {
    /// A system where the runtime, if not on the search path, lies in
    /// `/usr/bin`.
    Unix,
    /// A system where the game's own launcher brings a runtime with it.
    Windows,
}

/// The name of the Java executable on `platform`.
pub open spec fn java_name(platform: Platform) -> Seq<char> {
    match platform {
        Platform::Unix => "java"@,
        Platform::Windows => "java.exe"@,
    }
}

/// The directory that holds the program directories on a system where none
/// was found.
pub open spec fn fallback_program_files() -> Seq<char> {
    "C:\\Progam Files (x86)"@
}

/// The places to look for a Java runtime on `platform`, in order, each as
/// the components of its path: first the executable's bare name, which the
/// system resolves on its search path, then the one fixed place.
/// `program_files` is the directory of the program directories, where the
/// system names one.
pub open spec fn java_places(platform: Platform, program_files: Option<Seq<char>>) -> Seq<
    Seq<Seq<char>>,
> {
    match platform {
        Platform::Unix => seq![seq![java_name(platform)], seq!["/usr/bin"@, java_name(platform)]],
        Platform::Windows => seq![
            seq![java_name(platform)],
            seq![
                match program_files {
                    Some(directory) => directory,
                    None => fallback_program_files(),
                },
                "Minecraft Launcher"@,
                "runtime"@,
                "jre-x64"@,
                "bin"@,
                java_name(platform),
            ],
        ],
    }
}

/// The components of each of `places`, as sequences of characters.
pub open spec fn place_texts(places: Seq<Vec<String>>) -> Seq<Seq<Seq<char>>> {
    places.map_values(|place: Vec<String>| texts(place@))
}

/// Lists the places to look for a Java runtime on `platform`.
pub fn java_candidates(platform: Platform, program_files: Option<String>) -> (places: Vec<
    Vec<String>,
>)
    ensures
        place_texts(places@) == java_places(
            platform,
            match program_files {
                Some(directory) => Some(directory@),
                None => None,
            },
        ),
{
    let name = match platform {
        Platform::Unix => "java",
        Platform::Windows => "java.exe",
    };
    let mut on_search_path: Vec<String> = Vec::new();
    on_search_path.push(String::from_str(name));
    assert(texts(on_search_path@) =~= seq![java_name(platform)]);
    let mut fixed: Vec<String> = Vec::new();
    match platform {
        Platform::Unix => {
            fixed.push(String::from_str("/usr/bin"));
            fixed.push(String::from_str(name));
            assert(texts(fixed@) =~= seq!["/usr/bin"@, java_name(platform)]);
        },
        Platform::Windows => {
            let directory = match program_files {
                Some(directory) => directory,
                None => String::from_str("C:\\Progam Files (x86)"),
            };
            let ghost root = directory@;
            fixed.push(directory);
            fixed.push(String::from_str("Minecraft Launcher"));
            fixed.push(String::from_str("runtime"));
            fixed.push(String::from_str("jre-x64"));
            fixed.push(String::from_str("bin"));
            fixed.push(String::from_str(name));
            assert(texts(fixed@) =~= seq![
                root,
                "Minecraft Launcher"@,
                "runtime"@,
                "jre-x64"@,
                "bin"@,
                java_name(platform),
            ]);
        },
    }
    let ghost first = texts(on_search_path@);
    let ghost second = texts(fixed@);
    let mut places: Vec<Vec<String>> = Vec::new();
    places.push(on_search_path);
    places.push(fixed);
    assert(place_texts(places@) =~= seq![first, second]);
    assert(place_texts(places@) =~~= java_places(
        platform,
        match program_files {
            Some(directory) => Some(directory@),
            None => None,
        },
    ));
    places
}

/// The arguments that a runtime is tried with: it is asked for its version,
/// and counts as found where it answers without an error.
pub open spec fn probe_argument_list() -> Seq<Seq<char>> {
    seq!["-version"@]
}

/// The arguments to try a runtime with.
pub fn probe_arguments() -> (arguments: Vec<String>)
    ensures
        texts(arguments@) == probe_argument_list(),
{
    let mut arguments: Vec<String> = Vec::new();
    arguments.push(String::from_str("-version"));
    assert(texts(arguments@) =~= probe_argument_list());
    arguments
}

/// What the search for a Java runtime does next.
#[derive(Clone, Copy, Debug, PartialEq, Eq, Structural)]
pub enum JavaSearch {
    /// Try the place of this index.
    Probe(usize),
    /// The runtime at the place of this index answered: it is the one.
    Found(usize),
    /// No place is left to try.
    NotFound,
}

/// The first step of a search over `place_count` places.
pub open spec fn first_step(place_count: nat) -> JavaSearch {
    if place_count == 0 {
        JavaSearch::NotFound
    } else {
        JavaSearch::Probe(0)
    }
}

/// The step after the place `probed` was tried, with `accepted` for how the
/// trial ended.
pub open spec fn next_step(place_count: nat, probed: int, accepted: bool) -> JavaSearch {
    if accepted {
        JavaSearch::Found(probed as usize)
    } else if probed + 1 < place_count {
        JavaSearch::Probe((probed + 1) as usize)
    } else {
        JavaSearch::NotFound
    }
}

/// Starts a search over `place_count` places.
pub fn start_search(place_count: usize) -> (step: JavaSearch)
    ensures
        step == first_step(place_count as nat),
{
    if place_count == 0 {
        JavaSearch::NotFound
    } else {
        JavaSearch::Probe(0)
    }
}

/// Goes on with a search over `place_count` places after the place `probed`
/// was tried.
pub fn continue_search(place_count: usize, probed: usize, accepted: bool) -> (step: JavaSearch)
    ensures
        step == next_step(place_count as nat, probed as int, accepted),
{
    if accepted {
        JavaSearch::Found(probed)
    } else if place_count > 0 && probed < place_count - 1 {
        JavaSearch::Probe(probed + 1)
    } else {
        JavaSearch::NotFound
    }
}

/// A search that follows the steps tries the places in order and stops at
/// the first that accepts: if every place before `probed` refused, then
/// after the trial of `probed` the search has found the first place that
/// accepts, or goes on to the next place with all up to `probed` refused, or
/// ends without a runtime because every place refused.
pub proof fn lemma_search_takes_first(accepted: Seq<bool>, probed: int)
    requires
        0 <= probed < accepted.len() <= usize::MAX,
        forall|j: int| 0 <= j < probed ==> !accepted[j],
    ensures
        match next_step(accepted.len(), probed, accepted[probed]) {
            JavaSearch::Found(i) => i == probed && accepted[probed],
            JavaSearch::Probe(i) => i == probed + 1 && i < accepted.len() && forall|j: int|
                0 <= j < i ==> !accepted[j],
            JavaSearch::NotFound => forall|j: int| 0 <= j < accepted.len() ==> !accepted[j],
        },
{
}

} // verus!
