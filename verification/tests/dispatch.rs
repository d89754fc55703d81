use command_dispatch::evaluator::{Evaluator, Part};
use command_dispatch::outcome::Outcome;
use command_dispatch::protocol::Cause;
use command_dispatch::session::{Event, Reply};

/// A bump allocator and one page table's worth of memory, shared by the
/// guests below.
const ALLOCATOR: &str = r#"
    (memory (export "memory") 4)
    (global $top (mut i32) (i32.const 65536))
    (func $alloc (param $align i32) (param $size i32) (result i32)
      (local $at i32)
      (local.set $at
        (i32.and
          (i32.add (global.get $top) (i32.sub (local.get $align) (i32.const 1)))
          (i32.xor (i32.sub (local.get $align) (i32.const 1)) (i32.const -1))))
      (global.set $top (i32.add (local.get $at) (local.get $size)))
      (local.get $at))
    (func (export "cabi_realloc") (param $old i32) (param $old_size i32) (param $align i32) (param $size i32) (result i32)
      (local $at i32)
      (local.set $at (call $alloc (local.get $align) (local.get $size)))
      (memory.copy (local.get $at) (local.get $old) (local.get $old_size))
      (local.get $at))
"#;

/// A command whose `eval` concatenates its arguments.
fn echo_component() -> Vec<u8> {
    let text = format!(
        r#"(component
  (core module $m
    {ALLOCATOR}
    (func (export "eval") (param $list i32) (param $n i32) (result i32)
      (local $i i32) (local $total i32) (local $out i32) (local $at i32) (local $len i32) (local $ret i32)
      (block $counted
        (loop $count
          (br_if $counted (i32.ge_u (local.get $i) (local.get $n)))
          (local.set $total
            (i32.add (local.get $total)
              (i32.load offset=4 (i32.add (local.get $list) (i32.mul (local.get $i) (i32.const 8))))))
          (local.set $i (i32.add (local.get $i) (i32.const 1)))
          (br $count)))
      (local.set $out (call $alloc (i32.const 1) (local.get $total)))
      (local.set $at (local.get $out))
      (local.set $i (i32.const 0))
      (block $copied
        (loop $copy
          (br_if $copied (i32.ge_u (local.get $i) (local.get $n)))
          (local.set $len
            (i32.load offset=4 (i32.add (local.get $list) (i32.mul (local.get $i) (i32.const 8)))))
          (memory.copy
            (local.get $at)
            (i32.load (i32.add (local.get $list) (i32.mul (local.get $i) (i32.const 8))))
            (local.get $len))
          (local.set $at (i32.add (local.get $at) (local.get $len)))
          (local.set $i (i32.add (local.get $i) (i32.const 1)))
          (br $copy)))
      (local.set $ret (call $alloc (i32.const 4) (i32.const 8)))
      (i32.store (local.get $ret) (local.get $out))
      (i32.store offset=4 (local.get $ret) (local.get $total))
      (local.get $ret)))
  (core instance $i (instantiate $m))
  (alias core export $i "memory" (core memory $memory))
  (alias core export $i "cabi_realloc" (core func $realloc))
  (alias core export $i "eval" (core func $entry))
  (func $eval (param "args" (list string)) (result string)
    (canon lift (core func $entry) (memory $memory) (realloc $realloc)))
  (export "eval" (func $eval)))"#
    );
    wat::parse_str(&text).unwrap()
}

/// A command whose `eval` traps.
fn trap_component() -> Vec<u8> {
    let text = format!(
        r#"(component
  (core module $m
    {ALLOCATOR}
    (func (export "eval") (param $list i32) (param $n i32) (result i32)
      (unreachable)))
  (core instance $i (instantiate $m))
  (alias core export $i "memory" (core memory $memory))
  (alias core export $i "cabi_realloc" (core func $realloc))
  (alias core export $i "eval" (core func $entry))
  (func $eval (param "args" (list string)) (result string)
    (canon lift (core func $entry) (memory $memory) (realloc $realloc)))
  (export "eval" (func $eval)))"#
    );
    wat::parse_str(&text).unwrap()
}

/// The bytes as the body of a string of the text format.
fn escaped(bytes: &[u8]) -> String {
    let mut out = String::new();
    for byte in bytes {
        out.push_str(&format!("\\{:02x}", byte));
    }
    out
}

/// A loader that knows the given names and answers every other name with
/// `not found: ` and the name.
fn loader_component(known: &[(&str, Vec<u8>)]) -> Vec<u8> {
    let prefix = "not found: ";
    let mut data = String::new();
    let mut cases = String::new();
    let mut at: usize = 1024;
    data.push_str(&format!("    (data (i32.const 512) \"{}\")\n", escaped(prefix.as_bytes())));
    for (name, bytes) in known {
        let name_at = at;
        at += name.len();
        let bytes_at = at;
        at += bytes.len();
        data.push_str(&format!(
            "    (data (i32.const {name_at}) \"{}\")\n    (data (i32.const {bytes_at}) \"{}\")\n",
            escaped(name.as_bytes()),
            escaped(bytes),
        ));
        cases.push_str(&format!(
            r#"
      (if (call $same (local.get $path) (local.get $len) (i32.const {name_at}) (i32.const {name_len}))
        (then
          (i32.store8 (local.get $ret) (i32.const 0))
          (i32.store offset=4 (local.get $ret) (i32.const {bytes_at}))
          (i32.store offset=8 (local.get $ret) (i32.const {bytes_len}))
          (return (local.get $ret))))"#,
            name_len = name.len(),
            bytes_len = bytes.len(),
        ));
    }
    assert!(at < 65536);
    let text = format!(
        r#"(component
  (core module $m
    {ALLOCATOR}
{data}
    (func $same (param $a i32) (param $a_len i32) (param $b i32) (param $b_len i32) (result i32)
      (local $i i32)
      (if (i32.ne (local.get $a_len) (local.get $b_len)) (then (return (i32.const 0))))
      (block $done
        (loop $next
          (br_if $done (i32.ge_u (local.get $i) (local.get $a_len)))
          (if (i32.ne
                (i32.load8_u (i32.add (local.get $a) (local.get $i)))
                (i32.load8_u (i32.add (local.get $b) (local.get $i))))
            (then (return (i32.const 0))))
          (local.set $i (i32.add (local.get $i) (i32.const 1)))
          (br $next)))
      (i32.const 1))
    (func (export "load") (param $path i32) (param $len i32) (result i32)
      (local $ret i32) (local $message i32)
      (local.set $ret (call $alloc (i32.const 4) (i32.const 12)))
{cases}
      (local.set $message (call $alloc (i32.const 1) (i32.add (i32.const {prefix_len}) (local.get $len))))
      (memory.copy (local.get $message) (i32.const 512) (i32.const {prefix_len}))
      (memory.copy (i32.add (local.get $message) (i32.const {prefix_len})) (local.get $path) (local.get $len))
      (i32.store8 (local.get $ret) (i32.const 1))
      (i32.store offset=4 (local.get $ret) (local.get $message))
      (i32.store offset=8 (local.get $ret) (i32.add (i32.const {prefix_len}) (local.get $len)))
      (local.get $ret)))
  (core instance $i (instantiate $m))
  (alias core export $i "memory" (core memory $memory))
  (alias core export $i "cabi_realloc" (core func $realloc))
  (alias core export $i "load" (core func $entry))
  (func $load (param "path" string) (result (result (list u8) (error string)))
    (canon lift (core func $entry) (memory $memory) (realloc $realloc)))
  (export "load" (func $load)))"#,
        prefix_len = prefix.len(),
    );
    wat::parse_str(&text).unwrap()
}

fn here() -> wasi_common::sync::Dir {
    wasi_common::sync::Dir::open_ambient_dir(".", wasi_common::sync::ambient_authority()).unwrap()
}

fn strings(words: &[&str]) -> Vec<String> {
    words.iter().map(|word| word.to_string()).collect()
}

/// A command without the export `eval`.
fn mute_component() -> Vec<u8> {
    let text = format!(
        r#"(component
  (core module $m
    {ALLOCATOR}
    (func (export "eval") (param $list i32) (param $n i32) (result i32)
      (unreachable)))
  (core instance $i (instantiate $m))
  (alias core export $i "memory" (core memory $memory))
  (alias core export $i "cabi_realloc" (core func $realloc))
  (alias core export $i "eval" (core func $entry))
  (func $eval (param "args" (list string)) (result string)
    (canon lift (core func $entry) (memory $memory) (realloc $realloc)))
  (export "run" (func $eval)))"#
    );
    wat::parse_str(&text).unwrap()
}

/// A command whose `eval` takes one string, not a list of them.
fn odd_component() -> Vec<u8> {
    let text = format!(
        r#"(component
  (core module $m
    {ALLOCATOR}
    (func (export "eval") (param $text i32) (param $len i32) (result i32)
      (unreachable)))
  (core instance $i (instantiate $m))
  (alias core export $i "memory" (core memory $memory))
  (alias core export $i "cabi_realloc" (core func $realloc))
  (alias core export $i "eval" (core func $entry))
  (func $eval (param "arg" string) (result string)
    (canon lift (core func $entry) (memory $memory) (realloc $realloc)))
  (export "eval" (func $eval)))"#
    );
    wat::parse_str(&text).unwrap()
}

/// A command that needs an interface that no context provides.
fn needy_component() -> Vec<u8> {
    let text = format!(
        r#"(component
  (import "host:files/open" (func $open))
  (core module $m
    {ALLOCATOR}
    (func (export "eval") (param $list i32) (param $n i32) (result i32)
      (unreachable)))
  (core instance $i (instantiate $m))
  (alias core export $i "memory" (core memory $memory))
  (alias core export $i "cabi_realloc" (core func $realloc))
  (alias core export $i "eval" (core func $entry))
  (func $eval (param "args" (list string)) (result string)
    (canon lift (core func $entry) (memory $memory) (realloc $realloc)))
  (export "eval" (func $eval)))"#
    );
    wat::parse_str(&text).unwrap()
}

/// The start of a guest that asks its context for the directories open to
/// it: `$get` writes the list's address and length to the address given.
const ASKS_FOR_DIRECTORIES: &str = r#"
  (import "wasi:filesystem/types@0.2.0" (instance $types
    (export "descriptor" (type (sub resource)))))
  (alias export $types "descriptor" (type $descriptor))
  (import "wasi:filesystem/preopens@0.2.0" (instance $preopens
    (alias outer 1 $descriptor (type $d))
    (type $handle (own $d))
    (type $entry (tuple $handle string))
    (type $entries (list $entry))
    (export "get-directories" (func (result $entries)))))
  (core module $libc
    (memory (export "memory") 4)
    (global $top (mut i32) (i32.const 65536))
    (func (export "cabi_realloc") (param $old i32) (param $old_size i32) (param $align i32) (param $size i32) (result i32)
      (local $at i32)
      (local.set $at
        (i32.and
          (i32.add (global.get $top) (i32.sub (local.get $align) (i32.const 1)))
          (i32.xor (i32.sub (local.get $align) (i32.const 1)) (i32.const -1))))
      (global.set $top (i32.add (local.get $at) (local.get $size)))
      (memory.copy (local.get $at) (local.get $old) (local.get $old_size))
      (local.get $at)))
  (core instance $libc (instantiate $libc))
  (alias core export $libc "memory" (core memory $memory))
  (alias core export $libc "cabi_realloc" (core func $realloc))
  (alias export $preopens "get-directories" (func $get))
  (core func $get_core (canon lower (func $get) (memory $memory) (realloc $realloc)))
"#;

/// A command that looks for a directory to work in and says whether its
/// context opened one to it.
fn peek_component() -> Vec<u8> {
    let text = format!(
        r#"(component
{ASKS_FOR_DIRECTORIES}
  (core module $main
    (import "libc" "memory" (memory 4))
    (import "libc" "cabi_realloc" (func $realloc (param i32 i32 i32 i32) (result i32)))
    (import "host" "get-directories" (func $get (param i32)))
    (data (i32.const 512) "capability denied")
    (data (i32.const 600) "granted")
    (func (export "eval") (param $list i32) (param $n i32) (result i32)
      (local $ret i32)
      (local.set $ret (call $realloc (i32.const 0) (i32.const 0) (i32.const 4) (i32.const 8)))
      (call $get (local.get $ret))
      (if (i32.eqz (i32.load offset=4 (local.get $ret)))
        (then
          (i32.store (local.get $ret) (i32.const 512))
          (i32.store offset=4 (local.get $ret) (i32.const 17)))
        (else
          (i32.store (local.get $ret) (i32.const 600))
          (i32.store offset=4 (local.get $ret) (i32.const 7))))
      (local.get $ret)))
  (core instance $main (instantiate $main
    (with "libc" (instance $libc))
    (with "host" (instance (export "get-directories" (func $get_core))))))
  (alias core export $main "eval" (core func $entry))
  (func $eval (param "args" (list string)) (result string)
    (canon lift (core func $entry) (memory $memory) (realloc $realloc)))
  (export "eval" (func $eval)))"#
    );
    wat::parse_str(&text).unwrap()
}

/// A loader that delivers `bytes` for every name, provided that its
/// context opened exactly one directory to it, and else reports `no root`.
fn rooted_loader_component(bytes: &[u8]) -> Vec<u8> {
    let text = format!(
        r#"(component
{ASKS_FOR_DIRECTORIES}
  (core module $main
    (import "libc" "memory" (memory 4))
    (import "libc" "cabi_realloc" (func $realloc (param i32 i32 i32 i32) (result i32)))
    (import "host" "get-directories" (func $get (param i32)))
    (data (i32.const 512) "no root")
    (data (i32.const 1024) "{bytes}")
    (func (export "load") (param $path i32) (param $len i32) (result i32)
      (local $dirs i32) (local $ret i32)
      (local.set $dirs (call $realloc (i32.const 0) (i32.const 0) (i32.const 4) (i32.const 8)))
      (local.set $ret (call $realloc (i32.const 0) (i32.const 0) (i32.const 4) (i32.const 12)))
      (call $get (local.get $dirs))
      (if (i32.eq (i32.load offset=4 (local.get $dirs)) (i32.const 1))
        (then
          (i32.store8 (local.get $ret) (i32.const 0))
          (i32.store offset=4 (local.get $ret) (i32.const 1024))
          (i32.store offset=8 (local.get $ret) (i32.const {bytes_len})))
        (else
          (i32.store8 (local.get $ret) (i32.const 1))
          (i32.store offset=4 (local.get $ret) (i32.const 512))
          (i32.store offset=8 (local.get $ret) (i32.const 7))))
      (local.get $ret)))
  (core instance $main (instantiate $main
    (with "libc" (instance $libc))
    (with "host" (instance (export "get-directories" (func $get_core))))))
  (alias core export $main "load" (core func $entry))
  (func $load (param "path" string) (result (result (list u8) (error string)))
    (canon lift (core func $entry) (memory $memory) (realloc $realloc)))
  (export "load" (func $load)))"#,
        bytes = escaped(bytes),
        bytes_len = bytes.len(),
    );
    assert!(1024 + bytes.len() < 65536);
    wat::parse_str(&text).unwrap()
}

/// A loader that delivers nothing and says what its context lets it do
/// with its root: `root is read-only` where it may read there and neither
/// write nor change directories, `root is writable` where it may do more,
/// `no root` where no directory is open to it.
fn inspecting_loader_component() -> Vec<u8> {
    let text = r#"(component
  (import "wasi:filesystem/types@0.2.0" (instance $types
    (export "descriptor" (type $descriptor (sub resource)))
    (type $the_flags (flags "read" "write" "file-integrity-sync" "data-integrity-sync"
      "requested-write-sync" "mutate-directory"))
    (export "descriptor-flags" (type $flags (eq $the_flags)))
    (type $the_error (enum "access" "would-block" "already" "bad-descriptor" "busy" "deadlock"
      "quota" "exist" "file-too-large" "illegal-byte-sequence" "in-progress" "interrupted"
      "invalid" "io" "is-directory" "loop" "too-many-links" "message-size" "name-too-long"
      "no-device" "no-entry" "no-lock" "insufficient-memory" "insufficient-space"
      "not-directory" "not-empty" "not-recoverable" "unsupported" "no-tty" "no-such-device"
      "overflow" "not-permitted" "pipe" "read-only" "invalid-seek" "text-file-busy"
      "cross-device"))
    (export "error-code" (type $error (eq $the_error)))
    (type $self (borrow $descriptor))
    (type $got (result $flags (error $error)))
    (export "[method]descriptor.get-flags" (func (param "self" $self) (result $got)))))
  (alias export $types "descriptor" (type $descriptor))
  (import "wasi:filesystem/preopens@0.2.0" (instance $preopens
    (alias outer 1 $descriptor (type $d))
    (type $handle (own $d))
    (type $entry (tuple $handle string))
    (type $entries (list $entry))
    (export "get-directories" (func (result $entries)))))
  (core module $libc
    (memory (export "memory") 4)
    (global $top (mut i32) (i32.const 65536))
    (func (export "cabi_realloc") (param $old i32) (param $old_size i32) (param $align i32) (param $size i32) (result i32)
      (local $at i32)
      (local.set $at
        (i32.and
          (i32.add (global.get $top) (i32.sub (local.get $align) (i32.const 1)))
          (i32.xor (i32.sub (local.get $align) (i32.const 1)) (i32.const -1))))
      (global.set $top (i32.add (local.get $at) (local.get $size)))
      (memory.copy (local.get $at) (local.get $old) (local.get $old_size))
      (local.get $at)))
  (core instance $libc (instantiate $libc))
  (alias core export $libc "memory" (core memory $memory))
  (alias core export $libc "cabi_realloc" (core func $realloc))
  (alias export $preopens "get-directories" (func $get))
  (core func $get_core (canon lower (func $get) (memory $memory) (realloc $realloc)))
  (alias export $types "[method]descriptor.get-flags" (func $flags_of))
  (core func $flags_core (canon lower (func $flags_of) (memory $memory) (realloc $realloc)))
  (core module $main
    (import "libc" "memory" (memory 4))
    (import "libc" "cabi_realloc" (func $realloc (param i32 i32 i32 i32) (result i32)))
    (import "host" "get-directories" (func $get (param i32)))
    (import "host" "get-flags" (func $flags (param i32 i32)))
    (data (i32.const 512) "no root")
    (data (i32.const 544) "root is read-only")
    (data (i32.const 576) "root is writable")
    (data (i32.const 608) "no flags")
    (func $fail (param $ret i32) (param $text i32) (param $len i32) (result i32)
      (i32.store8 (local.get $ret) (i32.const 1))
      (i32.store offset=4 (local.get $ret) (local.get $text))
      (i32.store offset=8 (local.get $ret) (local.get $len))
      (local.get $ret))
    (func (export "load") (param $path i32) (param $len i32) (result i32)
      (local $dirs i32) (local $ret i32) (local $got i32) (local $bits i32)
      (local.set $dirs (call $realloc (i32.const 0) (i32.const 0) (i32.const 4) (i32.const 8)))
      (local.set $ret (call $realloc (i32.const 0) (i32.const 0) (i32.const 4) (i32.const 12)))
      (local.set $got (call $realloc (i32.const 0) (i32.const 0) (i32.const 1) (i32.const 2)))
      (call $get (local.get $dirs))
      (if (i32.eqz (i32.load offset=4 (local.get $dirs)))
        (then (return (call $fail (local.get $ret) (i32.const 512) (i32.const 7)))))
      (call $flags (i32.load (i32.load (local.get $dirs))) (local.get $got))
      (if (i32.load8_u (local.get $got))
        (then (return (call $fail (local.get $ret) (i32.const 608) (i32.const 8)))))
      (local.set $bits (i32.and (i32.load8_u offset=1 (local.get $got)) (i32.const 35)))
      (if (i32.eq (local.get $bits) (i32.const 1))
        (then (return (call $fail (local.get $ret) (i32.const 544) (i32.const 17)))))
      (call $fail (local.get $ret) (i32.const 576) (i32.const 16))))
  (core instance $main (instantiate $main
    (with "libc" (instance $libc))
    (with "host" (instance
      (export "get-directories" (func $get_core))
      (export "get-flags" (func $flags_core))))))
  (alias core export $main "load" (core func $entry))
  (func $load (param "path" string) (result (result (list u8) (error string)))
    (canon lift (core func $entry) (memory $memory) (realloc $realloc)))
  (export "load" (func $load)))"#;
    wat::parse_str(text).unwrap()
}

/// A dispatcher whose loader knows `echo`, the command `boom` that traps
/// and `junk`, whose bytecode does not compile.
fn evaluator() -> Evaluator {
    let loader = loader_component(&[
        ("echo", echo_component()),
        ("boom", trap_component()),
        ("junk", vec![0, 1, 2, 3]),
        ("mute", mute_component()),
        ("odd", odd_component()),
        ("needy", needy_component()),
    ]);
    started(&loader)
}

/// A dispatcher with the given loader, sparing with address space.
fn started(loader: &Vec<u8>) -> Evaluator {
    Evaluator::with_reservation(here(), loader, 0, 0).unwrap()
}

fn name(text: &str) -> String {
    text.to_string()
}

#[test]
fn echo_concatenates_its_arguments() {
    let mut evaluator = evaluator();
    assert_eq!(evaluator.eval(name("echo"), strings(&["hi", "there"])), "hithere");
}

#[test]
fn echo_of_nothing_is_empty() {
    let mut evaluator = evaluator();
    assert_eq!(evaluator.dispatch(name("echo"), vec![]), Outcome::Done(String::new()));
}

#[test]
fn arguments_arrive_in_order_and_verbatim() {
    let mut evaluator = evaluator();
    assert_eq!(
        evaluator.eval(name("echo"), strings(&["b", " a ", "", "\u{e9}\u{1f600}", "c"])),
        "b a \u{e9}\u{1f600}c"
    );
}

#[test]
fn first_dispatch_misses_and_second_hits() {
    let mut evaluator = evaluator();
    assert!(!evaluator.is_cached(&name("echo")));
    assert_eq!((evaluator.loader_calls(), evaluator.compilations()), (0, 0));
    assert_eq!(evaluator.dispatch(name("echo"), strings(&["a", "b"])), Outcome::Done(name("ab")));
    assert!(evaluator.is_cached(&name("echo")));
    assert_eq!((evaluator.loader_calls(), evaluator.compilations()), (1, 1));
    assert_eq!(evaluator.dispatch(name("echo"), strings(&["c"])), Outcome::Done(name("c")));
    assert!(evaluator.is_cached(&name("echo")));
    assert_eq!((evaluator.loader_calls(), evaluator.compilations()), (1, 1));
}

#[test]
fn cache_hit_is_loader_silent() {
    let mut evaluator = evaluator();
    assert_eq!(evaluator.eval(name("echo"), strings(&["x"])), "x");
    assert_eq!(evaluator.loader_calls(), 1);
    for round in 0..5 {
        let text = format!("{round}");
        assert_eq!(
            evaluator.eval(name("echo"), vec![text.clone(), text.clone()]),
            format!("{round}{round}")
        );
        assert_eq!(evaluator.loader_calls(), 1);
        assert_eq!(evaluator.compilations(), 1);
    }
    assert_eq!(evaluator.eval(name("nope"), vec![]), "not found: nope");
    assert_eq!(evaluator.eval(name("echo"), vec![]), "");
    assert_eq!(evaluator.loader_calls(), 2);
}

#[test]
fn failed_resolution_is_not_cached() {
    let mut evaluator = evaluator();
    assert_eq!(evaluator.eval(name("foo"), vec![]), "not found: foo");
    assert!(!evaluator.is_cached(&name("foo")));
    assert_eq!((evaluator.loader_calls(), evaluator.compilations()), (1, 0));
    assert_eq!(
        evaluator.dispatch(name("foo"), vec![]),
        Outcome::Error(Cause::Resolution, name("not found: foo"))
    );
    assert!(!evaluator.is_cached(&name("foo")));
    assert_eq!((evaluator.loader_calls(), evaluator.compilations()), (2, 0));
}

#[test]
fn failed_resolution_leaves_other_commands_cached() {
    let mut evaluator = evaluator();
    assert_eq!(evaluator.eval(name("echo"), strings(&["a"])), "a");
    assert_eq!(evaluator.eval(name("nope"), strings(&["a"])), "not found: nope");
    assert!(evaluator.is_cached(&name("echo")));
    assert_eq!(evaluator.eval(name("echo"), strings(&["b"])), "b");
}

#[test]
fn failed_compilation_is_not_cached() {
    let mut evaluator = evaluator();
    let out = evaluator.dispatch(name("junk"), vec![]);
    assert!(matches!(out, Outcome::Error(Cause::Compile, _)));
    assert!(out.is_error());
    assert!(!evaluator.is_cached(&name("junk")));
    assert_eq!((evaluator.loader_calls(), evaluator.compilations()), (1, 1));
    assert!(matches!(evaluator.dispatch(name("junk"), vec![]), Outcome::Error(Cause::Compile, _)));
    assert_eq!((evaluator.loader_calls(), evaluator.compilations()), (2, 2));
}

#[test]
fn invocation_fault_preserves_cache() {
    let mut evaluator = evaluator();
    let out = evaluator.dispatch(name("boom"), strings(&["a"]));
    assert!(matches!(out, Outcome::Error(Cause::Invocation, _)));
    assert!(evaluator.is_cached(&name("boom")));
    assert_eq!((evaluator.loader_calls(), evaluator.compilations()), (1, 1));
    let again = evaluator.dispatch(name("boom"), strings(&["a"]));
    assert!(matches!(again, Outcome::Error(Cause::Invocation, _)));
    assert!(evaluator.is_cached(&name("boom")));
    assert_eq!((evaluator.loader_calls(), evaluator.compilations()), (1, 1));
    assert_eq!(evaluator.eval(name("echo"), strings(&["still", "here"])), "stillhere");
}

#[test]
fn error_text_is_what_the_runtime_said() {
    let mut evaluator = evaluator();
    let text = evaluator.eval(name("boom"), vec![]);
    assert!(!text.is_empty());
    let out = evaluator.dispatch(name("boom"), vec![]);
    assert_eq!(out, Outcome::Error(Cause::Invocation, text));
}

#[test]
fn missing_export_is_an_error_of_the_command() {
    let mut evaluator = evaluator();
    assert_eq!(
        evaluator.dispatch(name("mute"), vec![]),
        Outcome::Error(Cause::MissingExport, name("failed to find function export `eval`"))
    );
    assert!(evaluator.is_cached(&name("mute")));
}

#[test]
fn mismatched_export_is_an_error_of_the_command() {
    let mut evaluator = evaluator();
    assert_eq!(
        evaluator.dispatch(name("odd"), vec![]),
        Outcome::Error(Cause::SignatureMismatch, name("failed to convert function `eval` to given type"))
    );
    assert!(evaluator.is_cached(&name("odd")));
}

#[test]
fn ungranted_import_fails_the_instantiation() {
    let mut evaluator = evaluator();
    let out = evaluator.dispatch(name("needy"), vec![]);
    assert!(matches!(out, Outcome::Error(Cause::Instantiation, _)));
    assert!(evaluator.is_cached(&name("needy")));
    assert_eq!(evaluator.eval(name("echo"), strings(&["ok"])), "ok");
}

#[test]
fn loader_without_export_cannot_resolve() {
    let mut evaluator = started(&echo_component());
    assert_eq!(
        evaluator.dispatch(name("echo"), vec![]),
        Outcome::Error(Cause::Resolution, name("failed to find function export `load`"))
    );
    assert!(!evaluator.is_cached(&name("echo")));
}

#[test]
fn commands_reach_no_directory_and_the_loader_reaches_its_root() {
    let mut evaluator = started(&rooted_loader_component(&peek_component()));
    assert_eq!(evaluator.dispatch(name("peek"), vec![]), Outcome::Done(name("capability denied")));
    assert!(evaluator.is_cached(&name("peek")));
    assert_eq!(evaluator.eval(name("peek"), vec![]), "capability denied");
    assert!(evaluator.is_cached(&name("peek")));
    assert_eq!((evaluator.loader_calls(), evaluator.compilations()), (1, 1));
}

#[test]
fn loader_may_only_read_under_its_root() {
    let mut evaluator = started(&inspecting_loader_component());
    assert_eq!(
        evaluator.dispatch(name("anything"), vec![]),
        Outcome::Error(Cause::Resolution, name("root is read-only"))
    );
}

#[test]
fn loader_module_must_compile() {
    match Evaluator::with_reservation(here(), &vec![1, 2, 3], 0, 0) {
        Err(error) => assert_eq!(error.part, Part::LoaderModule),
        Ok(_) => panic!("a loader module of three bytes was accepted"),
    }
}

#[test]
fn loader_module_may_come_as_text() {
    let text = "(component)".as_bytes().to_vec();
    let mut evaluator = started(&text);
    assert_eq!(
        evaluator.dispatch(name("echo"), vec![]),
        Outcome::Error(Cause::Resolution, name("failed to find function export `load`"))
    );
}

#[test]
fn command_bytecode_must_be_binary() {
    let text = "(component)".as_bytes().to_vec();
    let mut evaluator = started(&loader_component(&[("text", text)]));
    let out = evaluator.dispatch(name("text"), vec![]);
    assert!(matches!(out, Outcome::Error(Cause::Compile, _)));
    assert!(!evaluator.is_cached(&name("text")));
}

#[test]
fn invalid_loader_module_carries_the_compile_error() {
    match Evaluator::with_reservation(here(), &vec![0, 97, 115, 109, 9, 9, 9, 9], 0, 0) {
        Err(error) => {
            assert_eq!(error.part, Part::LoaderModule);
            let again = match Evaluator::with_reservation(here(), &vec![0, 97, 115, 109, 9, 9, 9, 9], 0, 0) {
                Err(error) => error.message,
                Ok(_) => panic!("an invalid loader module was accepted"),
            };
            assert_eq!(error.message, again);
            assert!(!error.message.is_empty());
        }
        Ok(_) => panic!("an invalid loader module was accepted"),
    }
}

#[test]
fn startup_error_shows_its_message() {
    match Evaluator::with_reservation(here(), &vec![], 0, 0) {
        Err(error) => {
            let message = error.message.clone();
            assert!(!message.is_empty());
            assert_eq!(error.text(), message);
        }
        Ok(_) => panic!("an empty loader module was accepted"),
    }
}

#[test]
fn default_runtime_starts() {
    let loader = loader_component(&[]);
    assert!(Evaluator::new(here(), &loader).is_ok());
}

#[test]
fn session_prints_the_outcome_of_a_command() {
    let mut evaluator = evaluator();
    assert_eq!(evaluator.answer(Event::Line(name("echo  hi   there "))), Reply::Print(name("hithere")));
    assert!(evaluator.is_cached(&name("echo")));
}

#[test]
fn session_prints_errors_like_results() {
    let mut evaluator = evaluator();
    assert_eq!(evaluator.answer(Event::Line(name("foo bar"))), Reply::Print(name("not found: foo")));
    assert_eq!(evaluator.answer(Event::Line(name("echo on"))), Reply::Print(name("on")));
}

#[test]
fn session_ends_on_exit_without_dispatch() {
    let mut evaluator = evaluator();
    assert_eq!(evaluator.answer(Event::Line(name("exit"))), Reply::Leave);
    assert_eq!(evaluator.answer(Event::Line(name("  exit echo"))), Reply::Leave);
    assert!(!evaluator.is_cached(&name("exit")));
    assert!(!evaluator.is_cached(&name("echo")));
    assert_eq!(evaluator.loader_calls(), 0);
}

#[test]
fn session_ends_on_end_of_input_and_interrupt() {
    let mut evaluator = evaluator();
    assert_eq!(evaluator.answer(Event::EndOfInput), Reply::Leave);
    assert_eq!(evaluator.answer(Event::Interrupted), Reply::Leave);
    assert_eq!(evaluator.loader_calls(), 0);
}

#[test]
fn session_ignores_blank_lines() {
    let mut evaluator = evaluator();
    assert_eq!(evaluator.answer(Event::Line(String::new())), Reply::Nothing);
    assert_eq!(evaluator.answer(Event::Line(name("    "))), Reply::Nothing);
}

#[test]
fn session_aborts_when_the_editor_fails() {
    let mut evaluator = evaluator();
    assert_eq!(evaluator.answer(Event::Failed(name("broken pipe"))), Reply::Abort(name("broken pipe")));
}
