//! The menu of jars: its order, its lines, and what an answer chooses.

use core::ops::RangeInclusive;
use vstd::prelude::*;
use vstd::string::*;
use crate::number::{number_between, parse_number_in_range, NumberError};
use crate::text::{all_whitespace, decimal, decimal_string, only_whitespace, texts};

verus! {

/// Whether `default_index`, if there is one, is an index into a list of
/// `count` jars.
pub open spec fn valid_default(count: nat, default_index: Option<int>) -> bool {
    default_index matches Some(d) ==> 0 <= d < count
}

/// The menu of `count` jars as the list of their indices, from the top: the
/// default jar first, where there is one, then the others as they stand in
/// the list.
pub open spec fn menu_order(count: nat, default_index: Option<int>) -> Seq<int> {
    let indices = Seq::new(count, |i: int| i);
    match default_index {
        Some(d) => seq![d] + indices.remove(d),
        None => indices,
    }
}

/// Index into the jar list of the entry at the zero-based menu position
/// `position`, by counting: position 0 is the default; the positions up to
/// the default's index are those of the jars before the default, which the
/// default has pushed down by one; behind them each jar stands where it
/// stands in the list.
pub open spec fn menu_target(position: int, default_index: Option<int>) -> int {
    match default_index {
        None => position,
        Some(d) => if position == 0 {
            d
        } else if position <= d {
            position - 1
        } else {
            position
        },
    }
}

/// Zero-based menu position of the jar at `index` of the jar list.
pub open spec fn menu_position(index: int, default_index: Option<int>) -> int {
    match default_index {
        None => index,
        Some(d) => if index == d {
            0
        } else if index < d {
            index + 1
        } else {
            index
        },
    }
}

/// The menu has one entry for each jar, and counting finds it: the entry at
/// a position is the index that `menu_target` gives for it.
pub proof fn lemma_menu_target_reads_menu(count: nat, default_index: Option<int>, position: int)
    requires
        valid_default(count, default_index),
        0 <= position < count,
    ensures
        menu_order(count, default_index).len() == count,
        menu_order(count, default_index)[position] == menu_target(position, default_index),
        0 <= menu_target(position, default_index) < count,
{
}

/// From a menu position to the jar's index and back leads to the same
/// position, and so does the way from an index to its position and back: each
/// jar stands in the menu exactly once.
pub proof fn lemma_menu_round_trip(count: nat, default_index: Option<int>, i: int)
    requires
        valid_default(count, default_index),
        0 <= i < count,
    ensures
        0 <= menu_position(i, default_index) < count,
        menu_position(menu_target(i, default_index), default_index) == i,
        menu_target(menu_position(i, default_index), default_index) == i,
        menu_order(count, default_index)[menu_position(i, default_index)] == i,
{
    lemma_menu_target_reads_menu(count, default_index, menu_position(i, default_index));
}

/// The line of the menu at the zero-based position `position`: the number
/// to answer with, the jar's path, and a mark on the default jar.
pub open spec fn menu_line(jars: Seq<Seq<char>>, position: int, default_index: Option<int>) -> Seq<
    char,
> {
    let entry = decimal((position + 1) as nat) + ". "@ + jars[menu_order(
        jars.len(),
        default_index,
    )[position]];
    if default_index is Some && position == 0 {
        entry + " (default)"@
    } else {
        entry
    }
}

/// The menu of `jars`, line by line.
pub open spec fn menu_text(jars: Seq<Seq<char>>, default_index: Option<int>) -> Seq<Seq<char>> {
    Seq::new(jars.len(), |position: int| menu_line(jars, position, default_index))
}

/// The question under a menu of `count` jars.
pub open spec fn choice_prompt_text(count: nat) -> Seq<char> {
    "Choose which one to use [<1,"@ + decimal(count) + ">]: "@
}

/// What the answer `line` chooses from a menu of `jar_count` jars, as a
/// zero-based menu position.
///
/// An answer of white space alone takes the default, which stands at
/// position 0, where there is one. Any other answer is the number of a menu
/// line, from 1 to `jar_count`.
pub open spec fn chosen_position(line: Seq<char>, jar_count: nat, has_default: bool) -> Result<
    usize,
    NumberError,
> {
    if has_default && all_whitespace(line) {
        Ok(0)
    } else {
        match number_between(line, 1, jar_count as int) {
            Ok(number) => Ok((number - 1) as usize),
            Err(e) => Err(e),
        }
    }
}

/// The index of the default jar, if there is one, as a mathematical integer.
pub open spec fn default_as_int(server_jar_idx: Option<usize>) -> Option<int> {
    match server_jar_idx {
        Some(d) => Some(d as int),
        None => None,
    }
}

/// Writes the menu of `jars`, with the jar at `server_jar_idx` as the
/// default on its first line.
pub fn menu_lines(jars: &[String], server_jar_idx: Option<usize>) -> (lines: Vec<String>)
    requires
        server_jar_idx matches Some(d) ==> d < jars@.len(),
    ensures
        texts(lines@) == menu_text(texts(jars@), default_as_int(server_jar_idx)),
{
    let ghost paths = texts(jars@);
    let ghost default_index = default_as_int(server_jar_idx);
    let mut lines: Vec<String> = Vec::new();
    let mut position: usize = 0;
    while position < jars.len()
        invariant
            paths == texts(jars@),
            default_index == default_as_int(server_jar_idx),
            server_jar_idx matches Some(d) ==> d < jars@.len(),
            position <= jars@.len(),
            lines@.len() == position,
            forall|k: int|
                0 <= k < position ==> (#[trigger] lines@[k])@ == menu_line(paths, k, default_index),
        decreases jars@.len() - position,
    {
        let target: usize = match server_jar_idx {
            None => position,
            Some(d) => if position == 0 {
                d
            } else if position <= d {
                position - 1
            } else {
                position
            },
        };
        proof {
            lemma_menu_target_reads_menu(jars@.len(), default_index, position as int);
        }
        let mut line = decimal_string((position + 1) as u64);
        line.append(". ");
        line.append(jars[target].as_str());
        if server_jar_idx.is_some() && position == 0 {
            line.append(" (default)");
        }
        assert(line@ =~= menu_line(paths, position as int, default_index));
        lines.push(line);
        position += 1;
    }
    assert(texts(lines@) =~= menu_text(paths, default_index));
    lines
}

/// Writes the question under a menu of `jar_count` jars.
pub fn choice_prompt(jar_count: usize) -> (prompt: String)
    ensures
        prompt@ == choice_prompt_text(jar_count as nat),
{
    let mut prompt = String::from_str("Choose which one to use [<1,");
    prompt.append(decimal_string(jar_count as u64).as_str());
    prompt.append(">]: ");
    prompt
}

/// Reads the answer `line` to a menu of `jar_count` jars.
pub fn read_choice(line: &str, jar_count: usize, has_default: bool) -> (choice: Result<
    usize,
    NumberError,
>)
    ensures
        choice == chosen_position(line@, jar_count as nat, has_default),
{
    if has_default && only_whitespace(line) {
        return Ok(0);
    }
    match parse_number_in_range(line, RangeInclusive::new(1, jar_count)) {
        Ok(number) => Ok(number - 1),
        Err(e) => Err(e),
    }
}

} // verus!
