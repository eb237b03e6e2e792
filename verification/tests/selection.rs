use minecraft_runner::find_jar::{
    find_server_jar, jar_files_among, record_preference, save_jar_preference, select_server_jar,
    FindServerJar, JarFile, MinecraftRunnerConfig, PreferenceError, StoredConfig,
};
use minecraft_runner::paths::has_extension;

fn files_of(names: &[&str]) -> Vec<String> {
    names.iter().map(|name| String::from(*name)).collect()
}

fn preferring(name: &str) -> StoredConfig {
    StoredConfig::Found(MinecraftRunnerConfig { jar_preference: String::from(name) })
}

fn jar(path: &str, file_name: &str) -> JarFile {
    JarFile { path: String::from(path), file_name: String::from(file_name) }
}

#[test]
fn empty_directory_has_no_jar() {
    assert_eq!(find_server_jar(&files_of(&[]), &StoredConfig::Missing), FindServerJar::NoJar);
    assert_eq!(find_server_jar(&files_of(&[]), &preferring("server.jar")), FindServerJar::NoJar);
    assert_eq!(find_server_jar(&files_of(&[]), &StoredConfig::Unreadable), FindServerJar::NoJar);
}

#[test]
fn directory_without_jars_has_no_jar() {
    let files = files_of(&["dir/eula.txt", "dir/server.properties", "dir/jar", "dir/.jar"]);
    assert_eq!(find_server_jar(&files, &StoredConfig::Missing), FindServerJar::NoJar);
    assert_eq!(find_server_jar(&files, &preferring("eula.txt")), FindServerJar::NoJar);
}

#[test]
fn lone_server_jar_is_the_server() {
    assert_eq!(
        find_server_jar(&files_of(&["server.jar"]), &StoredConfig::Missing),
        FindServerJar::ServerJar(String::from("server.jar"))
    );
    assert_eq!(
        find_server_jar(
            &files_of(&["/srv/mc/eula.txt", "/srv/mc/server.jar"]),
            &StoredConfig::Unreadable
        ),
        FindServerJar::ServerJar(String::from("/srv/mc/server.jar"))
    );
}

#[test]
fn lone_jar_of_another_name_is_unknown() {
    assert_eq!(
        find_server_jar(&files_of(&["paper-1.16.jar"]), &StoredConfig::Missing),
        FindServerJar::OneUnknownJar(String::from("paper-1.16.jar"))
    );
    assert_eq!(
        find_server_jar(&files_of(&["./Server.jar", "./notes.txt"]), &StoredConfig::Missing),
        FindServerJar::OneUnknownJar(String::from("./Server.jar"))
    );
}

#[test]
fn several_jars_are_all_handed_over() {
    let files = files_of(&["d/s1.jar", "d/readme.md", "d/server.jar", "d/s2.jar"]);
    assert_eq!(
        find_server_jar(&files, &StoredConfig::Missing),
        FindServerJar::MultipleJars(files_of(&["d/s1.jar", "d/server.jar", "d/s2.jar"]))
    );
    assert_eq!(
        find_server_jar(&files, &StoredConfig::Unreadable),
        FindServerJar::MultipleJars(files_of(&["d/s1.jar", "d/server.jar", "d/s2.jar"]))
    );
}

#[test]
fn extension_is_matched_as_written() {
    let files = files_of(&["a.JAR", "b.Jar", "c.jar.bak", "d.jarx", "e.jar"]);
    assert_eq!(
        find_server_jar(&files, &StoredConfig::Missing),
        FindServerJar::OneUnknownJar(String::from("e.jar"))
    );
}

#[test]
fn preference_is_followed_by_file_name() {
    let files = files_of(&["d/s1.jar", "d/s2.jar", "d/server.jar"]);
    let all = files_of(&["d/s1.jar", "d/s2.jar", "d/server.jar"]);
    assert_eq!(
        find_server_jar(&files, &preferring("s2.jar")),
        FindServerJar::PreferredJar(String::from("d/s2.jar"), all.clone())
    );
    assert_eq!(
        find_server_jar(&files, &preferring("elsewhere/s2.jar")),
        FindServerJar::PreferredJar(String::from("d/s2.jar"), all.clone())
    );
    assert_eq!(
        find_server_jar(&files_of(&["d/only.jar"]), &preferring("only.jar")),
        FindServerJar::PreferredJar(String::from("d/only.jar"), files_of(&["d/only.jar"]))
    );
}

#[test]
fn preference_for_a_missing_jar_is_ignored() {
    let files = files_of(&["d/s1.jar", "d/s2.jar"]);
    assert_eq!(
        find_server_jar(&files, &preferring("gone.jar")),
        FindServerJar::MultipleJars(files_of(&["d/s1.jar", "d/s2.jar"]))
    );
    assert_eq!(
        find_server_jar(&files_of(&["d/server.jar"]), &preferring("gone.jar")),
        FindServerJar::ServerJar(String::from("d/server.jar"))
    );
    assert_eq!(
        find_server_jar(&files_of(&["d/other.jar"]), &preferring("gone.jar")),
        FindServerJar::OneUnknownJar(String::from("d/other.jar"))
    );
    assert_eq!(
        find_server_jar(&files_of(&["d/other.jar", "d/gone.txt"]), &preferring("gone.txt")),
        FindServerJar::OneUnknownJar(String::from("d/other.jar"))
    );
    assert_eq!(
        find_server_jar(&files_of(&["d/other.jar"]), &preferring("")),
        FindServerJar::OneUnknownJar(String::from("d/other.jar"))
    );
}

#[test]
fn jar_files_keep_their_order_and_names() {
    let files = files_of(&["x/b.jar", "x/a.txt", "x/a.jar", "x/..jar", "x/.jar", "x/c.jar/"]);
    assert_eq!(
        jar_files_among(&files),
        vec![
            jar("x/b.jar", "b.jar"),
            jar("x/a.jar", "a.jar"),
            jar("x/..jar", "..jar"),
            jar("x/c.jar/", "c.jar"),
        ]
    );
}

#[test]
fn selection_goes_by_the_names_given() {
    assert_eq!(select_server_jar(vec![], None), FindServerJar::NoJar);
    assert_eq!(
        select_server_jar(vec![], Some(String::from("a.jar"))),
        FindServerJar::NoJar
    );
    assert_eq!(
        select_server_jar(vec![jar("p", "server.jar")], None),
        FindServerJar::ServerJar(String::from("p"))
    );
    assert_eq!(
        select_server_jar(vec![jar("server.jar", "other.jar")], None),
        FindServerJar::OneUnknownJar(String::from("server.jar"))
    );
    let two = vec![jar("first", "same.jar"), jar("second", "same.jar")];
    assert_eq!(
        select_server_jar(two.clone(), Some(String::from("same.jar"))),
        FindServerJar::PreferredJar(String::from("first"), vec![String::from("first"), String::from("second")])
    );
    assert_eq!(
        select_server_jar(two.clone(), Some(String::from("first"))),
        FindServerJar::MultipleJars(vec![String::from("first"), String::from("second")])
    );
    assert_eq!(
        select_server_jar(two, None),
        FindServerJar::MultipleJars(vec![String::from("first"), String::from("second")])
    );
}

#[test]
fn extension_is_what_follows_the_last_dot() {
    assert!(has_extension("server.jar", "jar"));
    assert!(has_extension("a.b.jar", "jar"));
    assert!(has_extension("..jar", "jar"));
    assert!(has_extension("archive.tar.gz", "gz"));
    assert!(has_extension("name.", ""));
    assert!(!has_extension(".jar", "jar"));
    assert!(!has_extension("jar", "jar"));
    assert!(!has_extension("server.JAR", "jar"));
    assert!(!has_extension("server.jar", "ar"));
    assert!(!has_extension("server.jar", ".jar"));
    assert!(!has_extension("server", ""));
    assert!(!has_extension("", ""));
}

#[test]
fn extension_agrees_with_the_standard_one() {
    let names = [
        "a.jar", ".jar", "..jar", "a..jar", "a.jar.", "a", "a.", ".a.", "a.b.c", "jar", "x.JAR",
        "\u{e9}.jar", "a.j\u{e9}r", "...", ".hidden.jar", "a b.jar", "-.jar",
    ];
    let extensions = ["jar", "", "JAR", "c", "j\u{e9}r", "ar", ".jar"];
    for name in names {
        let standard = std::path::Path::new(name).extension().map(|e| e.to_str().unwrap());
        for extension in extensions {
            assert_eq!(
                has_extension(name, extension),
                standard == Some(extension),
                "{:?} {:?}",
                name,
                extension
            );
        }
    }
}

#[test]
fn chosen_jar_is_recorded_by_its_file_name() {
    assert_eq!(
        save_jar_preference("/srv/mc/paper.jar", StoredConfig::Missing),
        Ok(MinecraftRunnerConfig { jar_preference: String::from("paper.jar") })
    );
    assert_eq!(
        save_jar_preference("paper.jar", preferring("old.jar")),
        Ok(MinecraftRunnerConfig { jar_preference: String::from("paper.jar") })
    );
    assert_eq!(
        save_jar_preference("dir/sub/", StoredConfig::Missing),
        Ok(MinecraftRunnerConfig { jar_preference: String::from("sub") })
    );
}

#[test]
fn record_is_refused_without_a_file_name() {
    assert_eq!(
        save_jar_preference("/srv/mc/..", StoredConfig::Missing),
        Err(PreferenceError::NoFileName)
    );
    assert_eq!(save_jar_preference("", preferring("old.jar")), Err(PreferenceError::NoFileName));
    assert_eq!(save_jar_preference("/", StoredConfig::Missing), Err(PreferenceError::NoFileName));
    assert_eq!(record_preference(StoredConfig::Missing, None), Err(PreferenceError::NoFileName));
}

#[test]
fn unreadable_record_is_left_alone() {
    assert_eq!(
        save_jar_preference("paper.jar", StoredConfig::Unreadable),
        Err(PreferenceError::ConfigUnreadable)
    );
    assert_eq!(
        save_jar_preference("..", StoredConfig::Unreadable),
        Err(PreferenceError::ConfigUnreadable)
    );
    assert_eq!(
        record_preference(StoredConfig::Unreadable, Some(String::from("a.jar"))),
        Err(PreferenceError::ConfigUnreadable)
    );
}

#[test]
fn record_takes_the_name_it_is_given() {
    assert_eq!(
        record_preference(StoredConfig::Missing, Some(String::from("a.jar"))),
        Ok(MinecraftRunnerConfig { jar_preference: String::from("a.jar") })
    );
    assert_eq!(
        record_preference(preferring("b.jar"), Some(String::from("a.jar"))),
        Ok(MinecraftRunnerConfig { jar_preference: String::from("a.jar") })
    );
    assert_eq!(MinecraftRunnerConfig::default().jar_preference, "");
}

#[test]
fn preference_errors_have_their_words() {
    assert_eq!(
        PreferenceError::ConfigUnreadable.message(),
        "Failed to read the stored jar preference"
    );
    assert_eq!(
        PreferenceError::NoFileName.message(),
        "Failed to get the filename of the chosen jar"
    );
}
