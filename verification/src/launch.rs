//! The arguments that the Java runtime is started with.

use vstd::prelude::*;
use vstd::string::*;
use crate::paths::{file_name, path_file_name};
use crate::text::{decimal, decimal_string, texts};

verus! {

/// A heap size flag: `prefix`, the size in whole mebibytes, and the unit.
pub open spec fn heap_flag(prefix: Seq<char>, mebibytes: nat) -> Seq<char> {
    prefix + decimal(mebibytes) + "M"@
}

/// The flags that tune the garbage collector; they are the same at every
/// start.
pub open spec fn tuning_flags() -> Seq<Seq<char>> {
    seq![
        "-Dsun.rmi.dgc.server.gcInterval=2147483646"@,
        "-XX:+UseG1GC"@,
        "-XX:+ParallelRefProcEnabled"@,
        "-XX:MaxGCPauseMillis=50"@,
        "-XX:+UnlockExperimentalVMOptions"@,
        "-XX:G1NewSizePercent=30"@,
        "-XX:G1HeapRegionSize=32M"@,
        "-XX:G1ReservePercent=20"@,
        "-XX:G1HeapWastePercent=5"@,
        "-XX:G1MixedGCCountTarget=4"@,
        "-XX:InitiatingHeapOccupancyPercent=15"@,
        "-XX:G1MixedGCLiveThresholdPercent=90"@,
        "-XX:G1RSetUpdatingPauseTimePercent=5"@,
        "-server"@,
    ]
}

/// The arguments that start the jar of file name `jar_name` as a server
/// without a window: the greatest and the least heap size, the tuning flags,
/// and the jar.
pub open spec fn server_argument_list(
    min_mebibytes: nat,
    max_mebibytes: nat,
    jar_name: Seq<char>,
) -> Seq<Seq<char>> {
    seq![heap_flag("-Xmx"@, max_mebibytes), heap_flag("-Xms"@, min_mebibytes)] + tuning_flags()
        + seq!["-jar"@, jar_name, "nogui"@]
}

/// The arguments that start the helper that runs once before the server.
pub open spec fn helper_argument_list() -> Seq<Seq<char>> {
    seq!["-jar"@, "AutoIpMinecraft.jar"@, "server.properties"@]
}

/// Writes a heap size flag.
fn heap_argument(prefix: &str, mebibytes: u64) -> (flag: String)
    ensures
        flag@ == heap_flag(prefix@, mebibytes as nat),
{
    let mut flag = String::from_str(prefix);
    flag.append(decimal_string(mebibytes).as_str());
    flag.append("M");
    flag
}

/// Adds the tuning flags to `arguments`.
fn push_tuning_flags(arguments: &mut Vec<String>)
    ensures
        texts(final(arguments)@) == texts(old(arguments)@) + tuning_flags(),
{
    let ghost before = texts(arguments@);
    arguments.push(String::from_str("-Dsun.rmi.dgc.server.gcInterval=2147483646"));
    arguments.push(String::from_str("-XX:+UseG1GC"));
    arguments.push(String::from_str("-XX:+ParallelRefProcEnabled"));
    arguments.push(String::from_str("-XX:MaxGCPauseMillis=50"));
    arguments.push(String::from_str("-XX:+UnlockExperimentalVMOptions"));
    arguments.push(String::from_str("-XX:G1NewSizePercent=30"));
    arguments.push(String::from_str("-XX:G1HeapRegionSize=32M"));
    arguments.push(String::from_str("-XX:G1ReservePercent=20"));
    arguments.push(String::from_str("-XX:G1HeapWastePercent=5"));
    arguments.push(String::from_str("-XX:G1MixedGCCountTarget=4"));
    arguments.push(String::from_str("-XX:InitiatingHeapOccupancyPercent=15"));
    arguments.push(String::from_str("-XX:G1MixedGCLiveThresholdPercent=90"));
    arguments.push(String::from_str("-XX:G1RSetUpdatingPauseTimePercent=5"));
    arguments.push(String::from_str("-server"));
    assert(texts(arguments@) =~= before + tuning_flags());
}

/// The arguments that start the jar of file name `jar_name`, with a heap of
/// `min_mebibytes` to `max_mebibytes` mebibytes.
pub fn server_arguments(min_mebibytes: u64, max_mebibytes: u64, jar_name: &str) -> (arguments: Vec<
    String,
>)
    ensures
        texts(arguments@) == server_argument_list(
            min_mebibytes as nat,
            max_mebibytes as nat,
            jar_name@,
        ),
{
    let mut arguments: Vec<String> = Vec::new();
    arguments.push(heap_argument("-Xmx", max_mebibytes));
    arguments.push(heap_argument("-Xms", min_mebibytes));
    let ghost heap = texts(arguments@);
    assert(heap =~= seq![
        heap_flag("-Xmx"@, max_mebibytes as nat),
        heap_flag("-Xms"@, min_mebibytes as nat),
    ]);
    push_tuning_flags(&mut arguments);
    let ghost tuned = texts(arguments@);
    arguments.push(String::from_str("-jar"));
    arguments.push(String::from_str(jar_name));
    arguments.push(String::from_str("nogui"));
    assert(texts(arguments@) =~= tuned + seq!["-jar"@, jar_name@, "nogui"@]);
    arguments
}

/// The arguments that start the jar at the path `jar`, which is started by
/// its file name, from the directory it lies in; `None` where the path has
/// no file name.
pub fn launch_arguments(min_mebibytes: u64, max_mebibytes: u64, jar: &str) -> (arguments: Option<
    Vec<String>,
>)
    ensures
        match path_file_name(jar@) {
            Some(name) => arguments is Some && texts(arguments->0@) == server_argument_list(
                min_mebibytes as nat,
                max_mebibytes as nat,
                name,
            ),
            None => arguments is None,
        },
{
    match file_name(jar) {
        Some(name) => Some(server_arguments(min_mebibytes, max_mebibytes, name.as_str())),
        None => None,
    }
}

/// The arguments that start the helper.
pub fn helper_arguments() -> (arguments: Vec<String>)
    ensures
        texts(arguments@) == helper_argument_list(),
{
    let mut arguments: Vec<String> = Vec::new();
    arguments.push(String::from_str("-jar"));
    arguments.push(String::from_str("AutoIpMinecraft.jar"));
    arguments.push(String::from_str("server.properties"));
    assert(texts(arguments@) =~= helper_argument_list());
    arguments
}

} // verus!
