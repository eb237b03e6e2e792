use minecraft_runner::java::{
    continue_search, java_candidates, probe_arguments, start_search, JavaSearch, Platform,
};
use minecraft_runner::launch::{helper_arguments, launch_arguments, server_arguments};

#[test]
fn server_is_started_with_heap_sizes_tuning_flags_and_jar() {
    assert_eq!(
        server_arguments(1024, 16384, "server.jar"),
        vec![
            "-Xmx16384M",
            "-Xms1024M",
            "-Dsun.rmi.dgc.server.gcInterval=2147483646",
            "-XX:+UseG1GC",
            "-XX:+ParallelRefProcEnabled",
            "-XX:MaxGCPauseMillis=50",
            "-XX:+UnlockExperimentalVMOptions",
            "-XX:G1NewSizePercent=30",
            "-XX:G1HeapRegionSize=32M",
            "-XX:G1ReservePercent=20",
            "-XX:G1HeapWastePercent=5",
            "-XX:G1MixedGCCountTarget=4",
            "-XX:InitiatingHeapOccupancyPercent=15",
            "-XX:G1MixedGCLiveThresholdPercent=90",
            "-XX:G1RSetUpdatingPauseTimePercent=5",
            "-server",
            "-jar",
            "server.jar",
            "nogui",
        ]
    );
}

#[test]
fn heap_sizes_are_written_in_whole_mebibytes() {
    let arguments = server_arguments(0, u64::MAX, "a b.jar");
    assert_eq!(arguments.len(), 19);
    assert_eq!(arguments[0], "-Xmx18446744073709551615M");
    assert_eq!(arguments[1], "-Xms0M");
    assert_eq!(arguments[17], "a b.jar");
}

#[test]
fn jar_is_started_by_its_file_name() {
    let arguments = launch_arguments(512, 2048, "/srv/minecraft/paper-1.16.5.jar").unwrap();
    assert_eq!(arguments, server_arguments(512, 2048, "paper-1.16.5.jar"));
    assert_eq!(arguments[16], "-jar");
    assert_eq!(arguments[17], "paper-1.16.5.jar");
    assert_eq!(arguments[18], "nogui");
    assert_eq!(
        launch_arguments(512, 2048, "server.jar"),
        Some(server_arguments(512, 2048, "server.jar"))
    );
}

#[test]
fn path_without_file_name_starts_nothing() {
    assert_eq!(launch_arguments(512, 2048, "/srv/minecraft/.."), None);
    assert_eq!(launch_arguments(512, 2048, ""), None);
}

#[test]
fn helper_has_its_own_arguments() {
    assert_eq!(
        helper_arguments(),
        vec!["-jar", "AutoIpMinecraft.jar", "server.properties"]
    );
}

#[test]
fn java_is_looked_for_on_the_search_path_first() {
    assert_eq!(
        java_candidates(Platform::Unix, None),
        vec![vec!["java"], vec!["/usr/bin", "java"]]
    );
    assert_eq!(
        java_candidates(Platform::Unix, Some(String::from("/opt"))),
        vec![vec!["java"], vec!["/usr/bin", "java"]]
    );
    assert_eq!(
        java_candidates(Platform::Windows, Some(String::from("D:\\Programs"))),
        vec![
            vec!["java.exe"],
            vec!["D:\\Programs", "Minecraft Launcher", "runtime", "jre-x64", "bin", "java.exe"],
        ]
    );
    assert_eq!(
        java_candidates(Platform::Windows, None),
        vec![
            vec!["java.exe"],
            vec![
                "C:\\Progam Files (x86)",
                "Minecraft Launcher",
                "runtime",
                "jre-x64",
                "bin",
                "java.exe",
            ],
        ]
    );
}

#[test]
fn runtime_is_asked_for_its_version() {
    assert_eq!(probe_arguments(), vec!["-version"]);
}

#[test]
fn search_stops_at_the_first_runtime_that_answers() {
    assert_eq!(start_search(2), JavaSearch::Probe(0));
    assert_eq!(continue_search(2, 0, true), JavaSearch::Found(0));
    assert_eq!(continue_search(2, 0, false), JavaSearch::Probe(1));
    assert_eq!(continue_search(2, 1, true), JavaSearch::Found(1));
    assert_eq!(continue_search(2, 1, false), JavaSearch::NotFound);
}

#[test]
fn search_over_no_place_finds_nothing() {
    assert_eq!(start_search(0), JavaSearch::NotFound);
    assert_eq!(continue_search(0, 0, false), JavaSearch::NotFound);
    assert_eq!(continue_search(1, 0, false), JavaSearch::NotFound);
    assert_eq!(continue_search(usize::MAX, usize::MAX, false), JavaSearch::NotFound);
    assert_eq!(continue_search(3, 7, false), JavaSearch::NotFound);
}

#[test]
fn search_follows_the_trials() {
    let trials = [
        (vec![false, false, true, true], Some(2)),
        (vec![true, true], Some(0)),
        (vec![false, false], None),
        (vec![], None),
    ];
    for (accepted, expected) in trials {
        let mut step = start_search(accepted.len());
        let mut tried = 0;
        let found = loop {
            match step {
                JavaSearch::Probe(i) => {
                    assert_eq!(i, tried);
                    tried += 1;
                    step = continue_search(accepted.len(), i, accepted[i]);
                }
                JavaSearch::Found(i) => break Some(i),
                JavaSearch::NotFound => break None,
            }
        };
        assert_eq!(found, expected);
    }
}
