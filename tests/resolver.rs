use aleo_sdk::resolver::{select_owned, FileSystemResolver, ManifestState, NamedText, PackageFiles, ResolveError, ScannedInput};
use rand::SeedableRng;
use rand_chacha::ChaChaRng;
use snarkvm_console::account::{Address, PrivateKey};
use snarkvm_console::network::Testnet3;
use snarkvm_synthesizer::Program;
use std::str::FromStr;

const HELLO_PROGRAM: &str = "program hello.aleo;

function main:
    input r0 as u32.public;
    input r1 as u32.private;
    add r0 r1 into r2;
    output r2 as u32.private;
";

const ALEO_PROGRAM: &str = "import hello.aleo;
import credits.aleo;

program aleo_test.aleo;

function sum:
    input r0 as u32.public;
    input r1 as u32.private;
    add r0 r1 into r2;
    output r2 as u32.private;
";

fn named(name: &str, text: &str) -> NamedText {
    NamedText { name: name.to_string(), text: text.to_string() }
}

fn package(inputs: Option<Vec<NamedText>>) -> PackageFiles {
    let credits = Program::<Testnet3>::credits().unwrap().to_string();
    PackageFiles {
        exists: true,
        manifest: ManifestState::Binds("aleo_test.aleo".to_string()),
        main_program: Some(ALEO_PROGRAM.to_string()),
        imports: vec![named("credits.aleo", &credits), named("hello.aleo", HELLO_PROGRAM)],
        inputs,
    }
}

fn resolver(inputs: Option<Vec<NamedText>>) -> FileSystemResolver {
    FileSystemResolver::new("/tmp/aleo_test_file_resolver".to_string(), package(inputs)).unwrap()
}

fn parsed(text: &str) -> Program<Testnet3> {
    Program::<Testnet3>::from_str(text).unwrap()
}

#[test]
fn test_file_resolver_loading_and_imports() {
    // The resolver loads the main program.
    let resolver = resolver(None);
    let expected_program = parsed(ALEO_PROGRAM);
    let found_program = resolver.load_program(&"aleo_test.aleo".to_string()).unwrap();
    assert_eq!(expected_program, parsed(&found_program.text));
    assert_eq!(found_program.id, "aleo_test.aleo");

    // The resolver resolves the imports, in declaration order.
    let test_program = found_program;
    let hello_program = parsed(HELLO_PROGRAM);
    let credits_program = Program::<Testnet3>::credits().unwrap();
    let imports = resolver.resolve_program_imports(&test_program).unwrap();
    assert_eq!(imports.len(), 2);
    let (hello_id, local_hello_program) = &imports[0];
    let (credits_id, local_credits_program) = &imports[1];
    let (local_hello_program, local_credits_program) =
        (local_hello_program.as_ref().unwrap(), local_credits_program.as_ref().unwrap());
    assert_eq!(hello_id.to_string(), "hello.aleo");
    assert_eq!(credits_id.to_string(), "credits.aleo");
    assert_eq!(hello_program, parsed(&local_hello_program.text));
    assert_eq!(credits_program, parsed(&local_credits_program.text));

    // A program that is not in the package is not found.
    let missing = resolver.load_program(&"qzkvtwmbhxlrnpsd.aleo".to_string());
    assert!(missing.is_err());

    // A bad import fails alone; the other imports still resolve.
    let bad_import_code = String::from("import qzkvtwmbhxlrnpsd.aleo;\n") + ALEO_PROGRAM;
    let mut files = package(None);
    files.imports.push(named("bad_import.aleo", &bad_import_code));
    let with_bad = FileSystemResolver::new("/tmp/aleo_test_file_resolver".to_string(), files).unwrap();
    let bad_import_program = with_bad.load_program(&"bad_import.aleo".to_string()).unwrap();
    assert_eq!(parsed(&bad_import_code).imports().len(), 3);
    let imports = resolver.resolve_program_imports(&bad_import_program).unwrap();
    let (_, local_bad_import_program) = &imports[0];
    let (hello_id, local_hello_program) = &imports[1];
    let (credits_id, local_credits_program) = &imports[2];
    assert!(local_bad_import_program.is_err());
    assert_eq!(hello_id.to_string(), "hello.aleo");
    assert_eq!(credits_id.to_string(), "credits.aleo");
    let (local_hello_program, local_credits_program) =
        (local_hello_program.as_ref().unwrap(), local_credits_program.as_ref().unwrap());
    assert_eq!(hello_program, parsed(&local_hello_program.text));
    assert_eq!(credits_program, parsed(&local_credits_program.text));

    // A program without imports has none to resolve.
    let credits = resolver.load_program(&"credits.aleo".to_string()).unwrap();
    let imports = resolver.resolve_program_imports(&credits).unwrap();
    assert_eq!(imports.len(), 0);
}

#[test]
fn main_program_load_is_repeatable() {
    let resolver = resolver(None);
    let first = resolver.load_program(&"aleo_test.aleo".to_string()).unwrap();
    let second = resolver.load_program(&"aleo_test.aleo".to_string()).unwrap();
    assert_eq!(first.text, ALEO_PROGRAM);
    assert_eq!(first.text, second.text);
    assert_eq!(first.imports, vec!["hello.aleo".to_string(), "credits.aleo".to_string()]);
    assert_eq!(first.imports, second.imports);
}

#[test]
fn parsed_import_keeps_its_identifier() {
    let resolver = resolver(None);
    let hello = resolver.load_program(&"hello.aleo".to_string()).unwrap();
    assert_eq!(hello.id, "hello.aleo");
    assert!(hello.imports.is_empty());
}

#[test]
fn load_errors_follow_the_package() {
    let r = FileSystemResolver::new("/nowhere".to_string(), PackageFiles { exists: false, ..package(None) });
    assert_eq!(r.err(), Some(ResolveError::NotConfigured));

    let resolver = resolver(None);
    assert_eq!(resolver.load_program(&"not an id".to_string()).err(), Some(ResolveError::InvalidProgramId));
    assert_eq!(resolver.load_program(&"record.aleo".to_string()).err(), Some(ResolveError::ReservedName));
    assert_eq!(resolver.load_program(&"absent.aleo".to_string()).err(), Some(ResolveError::ImportNotFound));

    let no_manifest = FileSystemResolver::new("/p".to_string(), PackageFiles { manifest: ManifestState::Missing, ..package(None) }).unwrap();
    assert_eq!(no_manifest.load_program(&"aleo_test.aleo".to_string()).err(), Some(ResolveError::MissingManifest));

    let bad_manifest = FileSystemResolver::new("/p".to_string(), PackageFiles { manifest: ManifestState::Unreadable, ..package(None) }).unwrap();
    assert_eq!(bad_manifest.load_program(&"aleo_test.aleo".to_string()).err(), Some(ResolveError::InvalidManifest));

    let no_main = FileSystemResolver::new("/p".to_string(), PackageFiles { main_program: None, ..package(None) }).unwrap();
    assert_eq!(no_main.load_program(&"aleo_test.aleo".to_string()).err(), Some(ResolveError::InvalidPackage));

    let mut files = package(None);
    files.imports.push(named("broken.aleo", "program broken.aleo; this is not a program"));
    let broken = FileSystemResolver::new("/p".to_string(), files).unwrap();
    assert_eq!(broken.load_program(&"broken.aleo".to_string()).err(), Some(ResolveError::ParseError));
}

#[test]
fn directories_are_joined_to_the_root() {
    let resolver = resolver(None);
    assert_eq!(resolver.import_directory(), "/tmp/aleo_test_file_resolver/imports");
    assert_eq!(resolver.inputs_directory(), "/tmp/aleo_test_file_resolver/inputs");
}

fn account(seed: u64) -> (String, String) {
    let private_key = PrivateKey::<Testnet3>::new(&mut ChaChaRng::seed_from_u64(seed)).unwrap();
    let address = Address::try_from(&private_key).unwrap();
    (private_key.to_string(), address.to_string())
}

fn record_json(owner: &str, visibility: &str, gates: u64) -> String {
    let text = format!("{{ owner: {owner}.{visibility}, gates: {gates}u64.private, _nonce: 0group.public }}");
    serde_json::to_string(&text).unwrap()
}

#[test]
fn owned_records_belong_to_the_caller() {
    let (key, address) = account(1);
    let (_, other) = account(2);
    let inputs = vec![
        named("mine.json", &record_json(&address, "public", 10)),
        named("theirs.json", &record_json(&other, "public", 20)),
        named("private.json", &record_json(&address, "private", 30)),
        named("notes.txt", &record_json(&address, "public", 40)),
        named("garbage.json", "{ not a record"),
        named(".json", &record_json(&address, "public", 50)),
        named("second.json", &record_json(&address, "public", 60)),
    ];
    let resolver = resolver(Some(inputs.clone()));
    let records = resolver.find_owned_records(&key).unwrap();
    assert_eq!(records.len(), 2);
    assert_eq!(records[0].json, inputs[0].text);
    assert_eq!(records[1].json, inputs[6].text);
    assert!(records.iter().all(|r| r.owner == address));

    let (other_key, _) = account(2);
    let theirs = resolver.find_owned_records(&other_key).unwrap();
    assert_eq!(theirs.len(), 1);
    assert_eq!(theirs[0].json, inputs[1].text);
}

#[test]
fn owned_records_errors() {
    let (key, _) = account(1);
    assert_eq!(resolver(None).find_owned_records(&key).err(), Some(ResolveError::InputsUnavailable));
    assert_eq!(resolver(Some(vec![])).find_owned_records(&"nonsense".to_string()).err(), Some(ResolveError::InvalidPrivateKey));
    assert_eq!(resolver(Some(vec![])).find_owned_records(&key).unwrap().len(), 0);
}

#[test]
fn locate_follows_the_manifest() {
    let resolver = resolver(None);
    let main = "aleo_test.aleo".to_string();
    assert_eq!(resolver.locate_program(&main, Some(false)), Ok(ALEO_PROGRAM.to_string()));
    assert_eq!(resolver.locate_program(&"hello.aleo".to_string(), Some(false)), Ok(HELLO_PROGRAM.to_string()));
    assert_eq!(resolver.locate_program(&main, Some(true)), Err(ResolveError::ReservedName));
    assert_eq!(resolver.locate_program(&main, None), Err(ResolveError::InvalidProgramId));
    assert_eq!(resolver.locate_program(&"nope.aleo".to_string(), Some(false)), Err(ResolveError::ImportNotFound));
}

#[test]
fn source_is_built_from_its_outline() {
    let text = "program x.aleo;".to_string();
    let src = aleo_sdk::resolver::source_from_outline(&text, Some(("x.aleo".to_string(), vec!["y.aleo".to_string()]))).unwrap();
    assert_eq!(src.id, "x.aleo");
    assert_eq!(src.imports, vec!["y.aleo".to_string()]);
    assert_eq!(src.text, text);
    assert_eq!(aleo_sdk::resolver::source_from_outline(&text, None).err(), Some(ResolveError::ParseError));
}

#[test]
fn selection_keeps_public_records_of_the_address() {
    let me = "aleo1me".to_string();
    let scanned = vec![
        ScannedInput { file: named("a.json", "A"), owner: Some(Some(me.clone())) },
        ScannedInput { file: named("b.json", "B"), owner: Some(Some("aleo1you".to_string())) },
        ScannedInput { file: named("c.json", "C"), owner: Some(None) },
        ScannedInput { file: named("d.txt", "D"), owner: None },
        ScannedInput { file: named("e.json", "E"), owner: Some(Some(me.clone())) },
    ];
    let kept = select_owned(&scanned, &me);
    assert_eq!(kept.len(), 2);
    assert_eq!((kept[0].owner.as_str(), kept[0].json.as_str()), ("aleo1me", "A"));
    assert_eq!((kept[1].owner.as_str(), kept[1].json.as_str()), ("aleo1me", "E"));
    assert!(select_owned(&vec![], &me).is_empty());
}
