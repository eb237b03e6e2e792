//! Choosing the server jar among the jar files of a directory.

use vstd::prelude::*;
use vstd::string::*;
use crate::menu::{
    chosen_position, default_as_int, lemma_menu_target_reads_menu, menu_line, menu_order,
    read_choice, valid_default,
};
use crate::number::{lemma_whitespace_is_no_number, lemma_written_number_is_read, NumberError};
use crate::paths::{extension_of, file_name, has_extension, path_file_name};
use crate::text::{all_whitespace, decimal, is_digit, lemma_decimal_is_digits, same_text, texts};

verus! {

/// What a look at the jar files of a directory came to.
#[derive(Clone, Debug, PartialEq, Eq)]
pub enum FindServerJar {
    /// The only jar, and it is named `server.jar`.
    ServerJar(String),
    /// The only jar, under another name.
    OneUnknownJar(String),
    /// Two jars or more, none of them preferred.
    MultipleJars(Vec<String>),
    /// The jar that the stored preference names, and all the jars.
    PreferredJar(String, Vec<String>),
    /// No jar at all.
    NoJar,
}

/// `FindServerJar` with each path as the sequence of its characters.
pub enum JarChoice {
    ServerJar(Seq<char>),
    OneUnknownJar(Seq<char>),
    MultipleJars(Seq<Seq<char>>),
    PreferredJar(Seq<char>, Seq<Seq<char>>),
    NoJar,
}

impl View for FindServerJar {
    type V = JarChoice;

    open spec fn view(&self) -> JarChoice {
        match self {
            FindServerJar::ServerJar(path) => JarChoice::ServerJar(path@),
            FindServerJar::OneUnknownJar(path) => JarChoice::OneUnknownJar(path@),
            FindServerJar::MultipleJars(paths) => JarChoice::MultipleJars(texts(paths@)),
            FindServerJar::PreferredJar(path, paths) => JarChoice::PreferredJar(
                path@,
                texts(paths@),
            ),
            FindServerJar::NoJar => JarChoice::NoJar,
        }
    }
}

/// A jar file: its path, and the file name that it is known by.
#[derive(Clone, Debug, PartialEq, Eq)]
pub struct JarFile {
    pub path: String,
    pub file_name: String,
}

/// `JarFile` with path and file name as sequences of characters.
pub struct JarName {
    pub path: Seq<char>,
    pub file_name: Seq<char>,
}

impl View for JarFile {
    type V = JarName;

    open spec fn view(&self) -> JarName {
        JarName { path: self.path@, file_name: self.file_name@ }
    }
}

/// The views of `jars`, in order.
pub open spec fn jar_names(jars: Seq<JarFile>) -> Seq<JarName> {
    jars.map_values(|jar: JarFile| jar@)
}

/// The paths of `jars`, in order.
pub open spec fn jar_paths(jars: Seq<JarName>) -> Seq<Seq<char>> {
    jars.map_values(|jar: JarName| jar.path)
}

/// The file names of `jars`, in order.
pub open spec fn jar_file_names(jars: Seq<JarName>) -> Seq<Seq<char>> {
    jars.map_values(|jar: JarName| jar.file_name)
}

/// The name that marks a jar as the server: alone it is started without
/// question, among others it is the default.
pub open spec fn server_jar_name() -> Seq<char> {
    "server.jar"@
}

/// Index of the first of `jars` whose file name is `preferred`, if there is
/// a preference and such a jar.
pub open spec fn preferred_index(jars: Seq<JarName>, preferred: Option<Seq<char>>) -> Option<int> {
    match preferred {
        Some(name) => jar_file_names(jars).index_of_first(name),
        None => None,
    }
}

/// Which jar is chosen among `jars`, given the file name of the jar that was
/// chosen the last time, if one is on record.
///
/// A preferred jar is taken only if it is still there, and then the first of
/// that name.
pub open spec fn selection(jars: Seq<JarName>, preferred: Option<Seq<char>>) -> JarChoice {
    if jars.len() == 0 {
        JarChoice::NoJar
    } else if let Some(i) = preferred_index(jars, preferred) {
        JarChoice::PreferredJar(jars[i].path, jar_paths(jars))
    } else if jars.len() == 1 {
        if jars[0].file_name == server_jar_name() {
            JarChoice::ServerJar(jars[0].path)
        } else {
            JarChoice::OneUnknownJar(jars[0].path)
        }
    } else {
        JarChoice::MultipleJars(jar_paths(jars))
    }
}

/// A preference for a file name that none of `jars` has counts for
/// nothing: the choice is the one made without any preference.
pub proof fn lemma_stale_preference_is_ignored(jars: Seq<JarName>, name: Seq<char>)
    requires
        !jar_file_names(jars).contains(name),
    ensures
        selection(jars, Some(name)) == selection(jars, None),
{
    jar_file_names(jars).index_of_first_ensures(name);
}

/// A jar is chosen as the preferred one only where a preference is on
/// record and the jar is the first of `jars` with the preferred file name;
/// and a preference that some jar meets is always followed.
pub proof fn lemma_preferred_jar_is_present(jars: Seq<JarName>, preferred: Option<Seq<char>>)
    ensures
        selection(jars, preferred) matches JarChoice::PreferredJar(path, all) ==> {
            &&& preferred is Some
            &&& all == jar_paths(jars)
            &&& exists|i: int|
                {
                    &&& 0 <= i < jars.len()
                    &&& #[trigger] jars[i].path == path
                    &&& jars[i].file_name == preferred->0
                    &&& forall|j: int| 0 <= j < i ==> jars[j].file_name != preferred->0
                }
        },
        preferred is Some && jar_file_names(jars).contains(preferred->0) ==> selection(
            jars,
            preferred,
        ) is PreferredJar,
{
    if let Some(name) = preferred {
        jar_file_names(jars).index_of_first_ensures(name);
        if let Some(i) = jar_file_names(jars).index_of_first(name) {
            if jars.len() > 0 {
                assert(jars[i].file_name == name);
                assert forall|j: int| 0 <= j < i implies jars[j].file_name != name by {
                    assert(jar_file_names(jars)[j] != name);
                }
            }
        }
    }
}

/// What each choice says of the jars it was made among: there is none; or
/// one, named `server.jar` or not; or two and more, which are all handed
/// over; or, whatever their number, the first that bears the preferred name,
/// which is one of those handed over with it.
pub proof fn lemma_selection_cases(jars: Seq<JarName>, preferred: Option<Seq<char>>)
    ensures
        match selection(jars, preferred) {
            JarChoice::NoJar => jars.len() == 0,
            JarChoice::ServerJar(path) => jars.len() == 1 && path == jars[0].path
                && jars[0].file_name == server_jar_name(),
            JarChoice::OneUnknownJar(path) => jars.len() == 1 && path == jars[0].path
                && jars[0].file_name != server_jar_name(),
            JarChoice::MultipleJars(all) => jars.len() >= 2 && all == jar_paths(jars),
            JarChoice::PreferredJar(path, all) => jars.len() >= 1 && all == jar_paths(jars)
                && all.contains(path),
        },
{
    if let Some(name) = preferred {
        jar_file_names(jars).index_of_first_ensures(name);
        if let Some(i) = jar_file_names(jars).index_of_first(name) {
            assert(jar_paths(jars)[i] == jars[i].path);
        }
    }
}

/// The text of `text`, if there is one.
pub open spec fn option_text(text: Option<String>) -> Option<Seq<char>> {
    match text {
        Some(t) => Some(t@),
        None => None,
    }
}

/// Index of the first of `jars` whose file name is `name`.
fn position_of_name(jars: &Vec<JarFile>, name: &str) -> (position: Option<usize>)
    ensures
        match position {
            Some(i) => i < jars@.len() && jar_file_names(jar_names(jars@)).index_of_first(name@)
                == Some(i as int),
            None => jar_file_names(jar_names(jars@)).index_of_first(name@).is_none(),
        },
{
    let ghost names = jar_file_names(jar_names(jars@));
    let mut i: usize = 0;
    while i < jars.len()
        invariant
            names == jar_file_names(jar_names(jars@)),
            i <= jars@.len(),
            forall|j: int| 0 <= j < i ==> #[trigger] names[j] != name@,
        decreases jars@.len() - i,
    {
        if same_text(jars[i].file_name.as_str(), name) {
            proof {
                assert(names[i as int] == name@);
                names.index_of_first_ensures(name@);
            }
            return Some(i);
        }
        i += 1;
    }
    proof {
        names.index_of_first_ensures(name@);
    }
    None
}

/// The paths of `jars`, in order.
fn paths_of(jars: &Vec<JarFile>) -> (paths: Vec<String>)
    ensures
        texts(paths@) == jar_paths(jar_names(jars@)),
{
    let mut paths: Vec<String> = Vec::new();
    let mut i: usize = 0;
    while i < jars.len()
        invariant
            i <= jars@.len(),
            paths@.len() == i,
            forall|j: int| 0 <= j < i ==> paths@[j]@ == jars@[j].path@,
        decreases jars@.len() - i,
    {
        paths.push(jars[i].path.clone());
        i += 1;
    }
    assert(texts(paths@) =~= jar_paths(jar_names(jars@)));
    paths
}

/// Chooses among `jars`, which all have the file names given with them;
/// `preferred` is the file name of the jar chosen the last time, if that is
/// on record.
pub fn select_server_jar(jars: Vec<JarFile>, preferred: Option<String>) -> (found: FindServerJar)
    ensures
        found@ == selection(jar_names(jars@), option_text(preferred)),
{
    if jars.len() == 0 {
        return FindServerJar::NoJar;
    }
    if let Some(name) = preferred {
        if let Some(i) = position_of_name(&jars, name.as_str()) {
            let path = jars[i].path.clone();
            return FindServerJar::PreferredJar(path, paths_of(&jars));
        }
    }
    if jars.len() == 1 {
        let path = jars[0].path.clone();
        if same_text(jars[0].file_name.as_str(), "server.jar") {
            FindServerJar::ServerJar(path)
        } else {
            FindServerJar::OneUnknownJar(path)
        }
    } else {
        FindServerJar::MultipleJars(paths_of(&jars))
    }
}

/// The record of the jar that was chosen the last time.
#[derive(Clone, Debug, PartialEq, Eq)]
pub struct MinecraftRunnerConfig {
    /// Path of the chosen jar; only its file name counts.
    pub jar_preference: String,
}

impl Default for MinecraftRunnerConfig {
    /// A record that prefers nothing.
    fn default() -> (config: Self)
        ensures
            config.jar_preference@ == Seq::<char>::empty(),
    {
        MinecraftRunnerConfig { jar_preference: String::new() }
    }
}

/// What reading the stored record came to.
#[derive(Clone, Debug, PartialEq, Eq)]
pub enum StoredConfig {
    /// The record was read.
    Found(MinecraftRunnerConfig),
    /// There is no record.
    Missing,
    /// There is a record, but it could not be read or understood.
    Unreadable,
}

/// The jar file that `path` names: a path whose file name has the extension
/// `jar`.
pub open spec fn jar_file(path: Seq<char>) -> Option<JarName> {
    match path_file_name(path) {
        Some(name) => if extension_of(name) == Some("jar"@) {
            Some(JarName { path: path, file_name: name })
        } else {
            None
        },
        None => None,
    }
}

/// `jar_file` as a function value.
pub open spec fn jar_file_fn() -> spec_fn(Seq<char>) -> Option<JarName> {
    |path: Seq<char>| jar_file(path)
}

/// The jar files among `files`, in the same order.
pub open spec fn jar_files(files: Seq<Seq<char>>) -> Seq<JarName> {
    files.filter_map(jar_file_fn())
}

/// The file name that `stored` prefers, if it holds a preference with one.
pub open spec fn stored_preference(stored: StoredConfig) -> Option<Seq<char>> {
    match stored {
        StoredConfig::Found(config) => path_file_name(config.jar_preference@),
        _ => None,
    }
}

/// Picks the jar files out of `files`, each with its file name.
pub fn jar_files_among(files: &[String]) -> (jars: Vec<JarFile>)
    ensures
        jar_names(jars@) == jar_files(texts(files@)),
{
    let ghost paths = texts(files@);
    let mut jars: Vec<JarFile> = Vec::new();
    let mut i: usize = 0;
    assert(jar_names(jars@) =~= jar_files(paths.take(0)));
    while i < files.len()
        invariant
            paths == texts(files@),
            i <= files@.len(),
            jar_names(jars@) == jar_files(paths.take(i as int)),
        decreases files@.len() - i,
    {
        let ghost before = jar_names(jars@);
        proof {
            paths.lemma_filter_map_take_succ(jar_file_fn(), i as int);
        }
        if let Some(name) = file_name(files[i].as_str()) {
            if has_extension(name.as_str(), "jar") {
                let jar = JarFile { path: files[i].clone(), file_name: name };
                jars.push(jar);
                assert(jar_names(jars@) =~= before.push(jar@));
            }
        }
        i += 1;
        assert(jar_names(jars@) =~= jar_files(paths.take(i as int)));
    }
    assert(paths.take(i as int) =~= paths);
    jars
}

/// Looks for the server jar among `files`, the paths of the files of a
/// directory, with `stored` for what is on record of the last choice.
///
/// Only the jar files count. A preference is followed where a jar of that
/// file name is among them, and ignored otherwise.
pub fn find_server_jar(files: &[String], stored: &StoredConfig) -> (found: FindServerJar)
    ensures
        found@ == selection(jar_files(texts(files@)), stored_preference(*stored)),
{
    let jars = jar_files_among(files);
    let preferred = match stored {
        StoredConfig::Found(config) => file_name(config.jar_preference.as_str()),
        _ => None,
    };
    select_server_jar(jars, preferred)
}

/// The jar shown at the zero-based menu position `idx`, where the menu
/// lists the jar at `server_jar_idx` first and the others behind it.
///
/// Position 0 is the default jar when there is one, so it also stands for an
/// empty answer.
pub fn get_jar_from_jars(jars: &[String], idx: usize, server_jar_idx: Option<usize>) -> (jar:
    String)
    requires
        idx < jars@.len(),
        server_jar_idx matches Some(d) ==> d < jars@.len(),
    ensures
        jar == jars@[menu_order(jars@.len(), default_as_int(server_jar_idx))[idx as int]],
{
    proof {
        lemma_menu_target_reads_menu(jars@.len(), default_as_int(server_jar_idx), idx as int);
    }
    let server_jar_idx: usize = match server_jar_idx {
        Some(d) => d,
        None => {
            return jars[idx].clone();
        },
    };
    if idx == 0 {
        jars[server_jar_idx].clone()
    } else if idx <= server_jar_idx {
        jars[idx - 1].clone()
    } else {
        jars[idx].clone()
    }
}

/// The file name of each of `paths`, in order.
pub open spec fn file_names_of(paths: Seq<Seq<char>>) -> Seq<Option<Seq<char>>> {
    paths.map_values(|path: Seq<char>| path_file_name(path))
}

/// Index of the default jar among `paths`: the first whose file name is
/// `server.jar`.
pub open spec fn default_index(paths: Seq<Seq<char>>) -> Option<int> {
    file_names_of(paths).index_of_first(Some(server_jar_name()))
}

/// The default jar, where there is one, is one of the jars, is named
/// `server.jar`, and no jar before it is.
pub proof fn lemma_default_is_named_server_jar(paths: Seq<Seq<char>>)
    ensures
        valid_default(paths.len(), default_index(paths)),
        default_index(paths) matches Some(d) ==> path_file_name(paths[d]) == Some(
            server_jar_name(),
        ) && forall|j: int| 0 <= j < d ==> path_file_name(#[trigger] paths[j]) != Some(
            server_jar_name(),
        ),
        default_index(paths) is None ==> forall|j: int|
            0 <= j < paths.len() ==> path_file_name(#[trigger] paths[j]) != Some(
                server_jar_name(),
            ),
{
    let names = file_names_of(paths);
    names.index_of_first_ensures(Some(server_jar_name()));
    match default_index(paths) {
        Some(d) => {
            assert(names[d] == path_file_name(paths[d]));
            assert forall|j: int| 0 <= j < d implies path_file_name(#[trigger] paths[j]) != Some(
                server_jar_name(),
            ) by {
                assert(names[j] == path_file_name(paths[j]));
            }
        },
        None => {
            assert forall|j: int| 0 <= j < paths.len() implies path_file_name(
                #[trigger] paths[j],
            ) != Some(server_jar_name()) by {
                assert(names[j] == path_file_name(paths[j]));
            }
        },
    }
}

/// Finds the default jar among `jars`.
pub fn server_jar_index(jars: &[String]) -> (index: Option<usize>)
    ensures
        default_as_int(index) == default_index(texts(jars@)),
        index matches Some(d) ==> d < jars@.len(),
{
    let ghost names = file_names_of(texts(jars@));
    let mut i: usize = 0;
    while i < jars.len()
        invariant
            names == file_names_of(texts(jars@)),
            i <= jars@.len(),
            forall|j: int| 0 <= j < i ==> #[trigger] names[j] != Some(server_jar_name()),
        decreases jars@.len() - i,
    {
        if let Some(name) = file_name(jars[i].as_str()) {
            if same_text(name.as_str(), "server.jar") {
                proof {
                    assert(names[i as int] == Some(server_jar_name()));
                    names.index_of_first_ensures(Some(server_jar_name()));
                }
                return Some(i);
            }
        }
        i += 1;
    }
    proof {
        names.index_of_first_ensures(Some(server_jar_name()));
    }
    None
}

/// The jar that the answer `line` chooses from the menu of `jars`, or why
/// the answer chooses none.
pub open spec fn chosen_jar(jars: Seq<Seq<char>>, line: Seq<char>, default_index: Option<int>)
    -> Result<Seq<char>, NumberError> {
    match chosen_position(line, jars.len(), default_index is Some) {
        Ok(position) => Ok(jars[menu_order(jars.len(), default_index)[position as int]]),
        Err(e) => Err(e),
    }
}

/// The number on a line of the menu, given as the answer, chooses the jar
/// on that line: the menu line at position `position` starts with the
/// number `position + 1` and names a jar, and the answer `position + 1`
/// chooses that jar.
pub proof fn lemma_label_chooses_its_line(
    jars: Seq<Seq<char>>,
    default_index: Option<int>,
    position: int,
)
    requires
        valid_default(jars.len(), default_index),
        0 <= position < jars.len() <= usize::MAX,
    ensures
        chosen_jar(jars, decimal((position + 1) as nat), default_index) == Ok::<
            Seq<char>,
            NumberError,
        >(jars[menu_order(jars.len(), default_index)[position]]),
        (decimal((position + 1) as nat) + ". "@ + jars[menu_order(
            jars.len(),
            default_index,
        )[position]]).is_prefix_of(menu_line(jars, position, default_index)),
{
    let label = decimal((position + 1) as nat);
    lemma_written_number_is_read((position + 1) as nat, 1, jars.len() as int);
    lemma_decimal_is_digits((position + 1) as nat);
    assert(is_digit(label[0]));
    assert(!all_whitespace(label));
}

/// Without a default jar an answer of white space alone, the empty answer
/// among them, chooses nothing: the question is asked again.
pub proof fn lemma_empty_answer_needs_default(jars: Seq<Seq<char>>, line: Seq<char>)
    requires
        all_whitespace(line),
    ensures
        chosen_jar(jars, line, None) == Err::<Seq<char>, NumberError>(NumberError::NotANumber),
{
    lemma_whitespace_is_no_number(line, 1, jars.len() as int);
}

/// The path in `answer` as the sequence of its characters.
pub open spec fn answer_text(answer: Result<String, NumberError>) -> Result<
    Seq<char>,
    NumberError,
> {
    match answer {
        Ok(jar) => Ok(jar@),
        Err(e) => Err(e),
    }
}

/// Takes the answer `line` to the menu of `jars` whose default is the jar
/// at `server_jar_idx`.
pub fn choose_from_menu(jars: &[String], server_jar_idx: Option<usize>, line: &str) -> (answer:
    Result<String, NumberError>)
    requires
        server_jar_idx matches Some(d) ==> d < jars@.len(),
    ensures
        answer_text(answer) == chosen_jar(texts(jars@), line@, default_as_int(server_jar_idx)),
{
    match read_choice(line, jars.len(), server_jar_idx.is_some()) {
        Ok(position) => Ok(get_jar_from_jars(jars, position, server_jar_idx)),
        Err(e) => Err(e),
    }
}

/// One round of asking which of `jars` to use: takes the answer `line` to
/// the menu of `jars`, whose default is the first jar named `server.jar`.
///
/// On an error the question is to be asked again.
pub fn ask_which_jar_to_use(jars: &[String], line: &str) -> (answer: Result<String, NumberError>)
    ensures
        answer_text(answer) == chosen_jar(texts(jars@), line@, default_index(texts(jars@))),
{
    choose_from_menu(jars, server_jar_index(jars), line)
}

/// Why a choice of jar could not be put on record.
#[derive(Clone, Copy, Debug, PartialEq, Eq, Structural)]
pub enum PreferenceError {
    /// The record that is there could not be read, and is left as it is.
    ConfigUnreadable,
    /// The path of the chosen jar has no file name.
    NoFileName,
}

/// What the user is told of `error`.
pub open spec fn preference_error_text(error: PreferenceError) -> Seq<char> {
    match error {
        PreferenceError::ConfigUnreadable => "Failed to read the stored jar preference"@,
        PreferenceError::NoFileName => "Failed to get the filename of the chosen jar"@,
    }
}

impl PreferenceError {
    /// The error in words.
    pub fn message(&self) -> (text: String)
        ensures
            text@ == preference_error_text(*self),
    {
        match self {
            PreferenceError::ConfigUnreadable => String::from_str(
                "Failed to read the stored jar preference",
            ),
            PreferenceError::NoFileName => String::from_str(
                "Failed to get the filename of the chosen jar",
            ),
        }
    }
}

/// The record that follows `stored` once the jar of file name `name` was
/// chosen.
pub open spec fn updated_preference(stored: StoredConfig, name: Option<Seq<char>>) -> Result<
    Seq<char>,
    PreferenceError,
> {
    match stored {
        StoredConfig::Unreadable => Err(PreferenceError::ConfigUnreadable),
        _ => match name {
            Some(n) => Ok(n),
            None => Err(PreferenceError::NoFileName),
        },
    }
}

/// The preference in `record` as the sequence of its characters.
pub open spec fn record_text(record: Result<MinecraftRunnerConfig, PreferenceError>) -> Result<
    Seq<char>,
    PreferenceError,
> {
    match record {
        Ok(config) => Ok(config.jar_preference@),
        Err(e) => Err(e),
    }
}

/// Puts a jar of file name `name` on record, in place of what `stored`
/// holds; `None` stands for a jar whose path has no file name.
pub fn record_preference(stored: StoredConfig, name: Option<String>) -> (record: Result<
    MinecraftRunnerConfig,
    PreferenceError,
>)
    ensures
        record_text(record) == updated_preference(stored, option_text(name)),
{
    let mut config = match stored {
        StoredConfig::Found(config) => config,
        StoredConfig::Missing => MinecraftRunnerConfig::default(),
        StoredConfig::Unreadable => {
            return Err(PreferenceError::ConfigUnreadable);
        },
    };
    match name {
        Some(n) => {
            config.jar_preference = n;
            Ok(config)
        },
        None => Err(PreferenceError::NoFileName),
    }
}

/// The record to store once `jar` was chosen: the file name of `jar`.
///
/// Nothing is to be stored where the record that is there could not be
/// read, or where `jar` has no file name.
pub fn save_jar_preference(jar: &str, stored: StoredConfig) -> (record: Result<
    MinecraftRunnerConfig,
    PreferenceError,
>)
    ensures
        record_text(record) == updated_preference(stored, path_file_name(jar@)),
{
    record_preference(stored, file_name(jar))
}

} // verus!
