use vstd::prelude::*;

use crate::decrypter::{DecryptError, Decrypter};
use crate::paths::{file_name, file_name_of, join, joined, parent, parent_of};
use crate::plan::{in_place_target, mirrored_target, plan, Action, Plan};
use crate::system_json::{
    audio_flag, images_flag, key_field, object_fields, parse_result, parsed_object, string_fields,
    within_depth, Fields, ParseError, SystemJson,
};

verus! {

/// Where the decrypted files go.
pub enum Mode {
    /// Each asset is replaced by its decrypted file, and the manifest is
    /// updated where it stands.
    InPlace,
    /// A decrypted copy of the whole tree is written under `dest_root`, with a
    /// copy of the manifest stripped of its encryption fields.
    Mirrored { dest_root: String },
}

/// Which of the two layouts the game's manifest was found in.
#[derive(Debug, Clone, Copy, PartialEq, Eq, Structural)]
pub enum Layout {
    /// `www/data/System.json`, the older engine's layout.
    Legacy,
    /// `data/System.json`, the newer engine's layout.
    Current,
}

/// What the game's root turned out to be.
#[derive(Debug, Clone, Copy, PartialEq, Eq, Structural)]
pub enum RootKind {
    Missing,
    NotADirectory,
    Directory,
}

/// An entry of the tree that could not be read while scanning.
#[derive(Debug, Clone, PartialEq, Eq)]
pub struct ScanFailure {
    pub path: Option<String>,
    pub cause: String,
}

/// One entry met while scanning the game's tree.
pub enum ScanEntry {
    /// A regular file at this path.
    File(String),
    /// A directory, a link or anything else that is not a regular file.
    Other,
    /// An entry that could not be read.
    Failed(ScanFailure),
}

/// The step of a file's transform that failed.
#[derive(Debug, Clone, Copy, PartialEq, Eq, Structural)]
pub enum FileOp {
    Read,
    Decrypt,
    CreateDir,
    Write,
    Copy,
    Remove,
}

/// A file whose transform failed, with the step that failed and why.
#[derive(Debug, Clone, PartialEq, Eq)]
pub struct FileFailure {
    pub path: String,
    pub op: FileOp,
    pub cause: String,
}

/// Why a run failed.
#[derive(Debug, Clone, PartialEq, Eq)]
pub enum DecryptionError {
    /// The game's root does not exist.
    NotExists(String),
    /// The game's root is not a directory.
    NotADirectory(String),
    /// Neither layout's manifest exists.
    SystemJsonNotFound,
    /// The manifest could not be read.
    ReadSystemJson { path: String, cause: String },
    /// The manifest could not be parsed.
    ParseSystemJson { path: String, source: ParseError },
    /// Some entries could not be scanned or some files not transformed; the
    /// others were, and the manifest was left as it was.
    Incomplete { scan: Vec<ScanFailure>, files: Vec<FileFailure> },
    /// Every file was transformed, but the manifest could not be updated.
    MarkSystemJsonAsUnencrypted { path: String, cause: String },
}

/// The outcome of a command, handed back to the run by its driver.
pub enum Event {
    /// What the root is.
    Root(RootKind),
    /// Whether the file asked about exists.
    Exists(bool),
    /// The manifest's text, or why it could not be read.
    Text(Result<String, String>),
    /// The entries of the game's tree.
    Scanned(Vec<ScanEntry>),
    /// The files of the batch whose transform failed.
    Transformed(Vec<FileFailure>),
    /// Whether the manifest was written, or why not.
    Written(Result<(), String>),
}

/// What a run asks its driver to do next; the driver answers each command
/// but `Finish` with an `Event`.
pub enum Command {
    /// Tell what the path is.
    CheckRoot { path: String },
    /// Tell whether the file exists.
    CheckExists { path: String },
    /// Read the file as text.
    ReadText { path: String },
    /// List the whole tree under `root`, without following links.
    Scan { root: String },
    /// Carry out each plan on its own: read the source, pass it through
    /// `transform`, write the destination (creating its directories), and
    /// remove the source where `remove_sources` is set.
    Transform { plans: Vec<Plan>, decrypter: Decrypter, remove_sources: bool },
    /// Write the text to the file.
    WriteText { path: String, text: String },
    /// The run is over, with this result.
    Finish(Result<(), DecryptionError>),
}

/// Where a run stands.
#[derive(Debug, Clone, Copy, PartialEq, Eq, Structural)]
pub enum Stage {
    CheckRoot,
    FindLegacy,
    FindCurrent,
    ReadManifest,
    Scan,
    Transform,
    WriteManifest,
    Done,
}

/// The manifest's path under `root` in a layout.
pub open spec fn manifest_in(root: Seq<char>, layout: Layout) -> Seq<char> {
    match layout {
        Layout::Legacy => joined(joined(joined(root, "www"@), "data"@), "System.json"@),
        Layout::Current => joined(joined(root, "data"@), "System.json"@),
    }
}

/// Computes the manifest's path under `root` in a layout.
pub fn manifest_path(root: &str, layout: Layout) -> (r: String)
    ensures
        r@ == manifest_in(root@, layout),
{
    match layout {
        Layout::Legacy => {
            let www = join(root, "www");
            let data = join(www.as_str(), "data");
            join(data.as_str(), "System.json")
        },
        Layout::Current => {
            let data = join(root, "data");
            join(data.as_str(), "System.json")
        },
    }
}

/// The path with `suffix` added to its last component.
pub open spec fn suffixed(p: Seq<char>, suffix: Seq<char>) -> Option<Seq<char>> {
    match file_name_of(p) {
        None => None,
        Some(name) => Some(
            joined(
                match parent_of(p) {
                    Some(q) => q,
                    None => Seq::<char>::empty(),
                },
                name + suffix,
            ),
        ),
    }
}

/// Adds `suffix` to the last component of `path`; `None` where the path has
/// no last component to add it to.
pub fn add_suffix(path: &str, suffix: &str) -> (r: Option<String>)
    ensures
        match suffixed(path@, suffix@) {
            Some(s) => r matches Some(t) && t@ == s,
            None => r is None,
        },
{
    let dir = match parent(path) {
        Some(q) => q,
        None => String::new(),
    };
    let mut name = match file_name(path) {
        Some(n) => n,
        None => return None,
    };
    name.append(suffix);
    Some(join(dir.as_str(), name.as_str()))
}

/// The root of the decrypted copy of the game at `game_dir`: a sibling
/// directory named after it with `_decrypted` added.
pub fn mirror_root(game_dir: &str) -> (r: Option<String>)
    ensures
        match suffixed(game_dir@, "_decrypted"@) {
            Some(s) => r matches Some(t) && t@ == s,
            None => r is None,
        },
{
    add_suffix(game_dir, "_decrypted")
}

/// The contents of a buffer after the transform that `action` calls for.
pub fn transform(decrypter: &Decrypter, action: Action, bytes: Vec<u8>) -> (r: Result<
    Vec<u8>,
    DecryptError,
>)
    ensures
        action == Action::Decrypt && bytes@.len() < crate::decrypter::HEADER_LEN ==> r
            == Err::<Vec<u8>, DecryptError>(DecryptError::TooShort { len: bytes@.len() as usize }),
        action == Action::Decrypt && bytes@.len() >= crate::decrypter::HEADER_LEN ==> (r matches Ok(
            out,
        ) && out@ == crate::decrypter::decrypted(bytes@, decrypter@)),
        action != Action::Decrypt ==> (r matches Ok(out) && out@ == bytes@),
{
    let mut bytes = bytes;
    if action == Action::Decrypt {
        match decrypter.decrypt(&mut bytes) {
            Ok(()) => Ok(bytes),
            Err(e) => Err(e),
        }
    } else {
        Ok(bytes)
    }
}


/// Where and how a run in `mode` plans a regular file at `source`, if it
/// plans it at all.
pub open spec fn target(mode: Mode, game_dir: Seq<char>, source: Seq<char>) -> Option<
    (Seq<char>, Action),
> {
    match mode {
        Mode::InPlace => in_place_target(source),
        Mode::Mirrored { dest_root } => mirrored_target(game_dir, dest_root@, source),
    }
}

/// A plan as its source, destination and action.
pub open spec fn plan_of(p: Plan) -> (Seq<char>, Seq<char>, Action) {
    (p.source@, p.dest@, p.action)
}

/// The plans of a run in `mode` for the scanned `entries`, in their order:
/// one for each regular file that the mode does not skip.
pub open spec fn planned(mode: Mode, game_dir: Seq<char>, entries: Seq<ScanEntry>) -> Seq<
    (Seq<char>, Seq<char>, Action),
>
    decreases entries.len(),
{
    if entries.len() == 0 {
        Seq::empty()
    } else {
        let rest = planned(mode, game_dir, entries.drop_last());
        match entries.last() {
            ScanEntry::File(p) => match target(mode, game_dir, p@) {
                Some((d, a)) => rest.push((p@, d, a)),
                None => rest,
            },
            _ => rest,
        }
    }
}

/// The failures among the scanned `entries`, in their order.
pub open spec fn failed(entries: Seq<ScanEntry>) -> Seq<ScanFailure>
    decreases entries.len(),
{
    if entries.len() == 0 {
        Seq::empty()
    } else {
        let rest = failed(entries.drop_last());
        match entries.last() {
            ScanEntry::Failed(f) => rest.push(f),
            _ => rest,
        }
    }
}

/// The root under which a run in `mode` writes its manifest.
pub open spec fn output_root(mode: Mode, game_dir: Seq<char>) -> Seq<char> {
    match mode {
        Mode::InPlace => game_dir,
        Mode::Mirrored { dest_root } => dest_root@,
    }
}

/// The manifest's fields once a run in `mode` has marked it as decrypted.
pub open spec fn finalized(mode: Mode, fields: Fields) -> Fields {
    match mode {
        Mode::InPlace => fields.remove(audio_flag()).remove(images_flag()),
        Mode::Mirrored { .. } => fields.remove(images_flag()).remove(audio_flag()).remove(
            key_field(),
        ),
    }
}

/// Plans one regular file for a run in `mode`.
fn plan_file(mode: &Mode, game_dir: &str, source: &str) -> (r: Option<Plan>)
    ensures
        match target(*mode, game_dir@, source@) {
            Some((d, a)) => r matches Some(p) && plan_of(p) == (source@, d, a),
            None => r is None,
        },
{
    match mode {
        Mode::InPlace => {
            let p = Plan::new(source);
            if p.action == Action::Decrypt {
                Some(p)
            } else {
                None
            }
        },
        Mode::Mirrored { dest_root } => plan(game_dir, dest_root.as_str(), source),
    }
}

/// A copy of an optional path.
fn copy_path(p: &Option<String>) -> (r: Option<String>)
    ensures
        r == *p,
{
    match p {
        Some(s) => Some(s.clone()),
        None => None,
    }
}

/// Sorts the scanned entries into the plans of a run in `mode` and the
/// entries that could not be read.
fn sort_entries(mode: &Mode, game_dir: &str, entries: &Vec<ScanEntry>) -> (r: (
    Vec<Plan>,
    Vec<ScanFailure>,
))
    ensures
        r.0@.map_values(|p: Plan| plan_of(p)) == planned(*mode, game_dir@, entries@),
        r.1@ == failed(entries@),
{
    let mut plans: Vec<Plan> = Vec::new();
    let mut failures: Vec<ScanFailure> = Vec::new();
    let mut i: usize = 0;
    while i < entries.len()
        invariant
            i <= entries@.len(),
            plans@.map_values(|p: Plan| plan_of(p)) == planned(
                *mode,
                game_dir@,
                entries@.subrange(0, i as int),
            ),
            failures@ == failed(entries@.subrange(0, i as int)),
        decreases entries@.len() - i,
    {
        let ghost done = entries@.subrange(0, i as int);
        let ghost next = entries@.subrange(0, i + 1);
        assert(next.drop_last() == done);
        assert(next.last() == entries@[i as int]);
        match &entries[i] {
            ScanEntry::File(path) => {
                match plan_file(mode, game_dir, path.as_str()) {
                    Some(p) => {
                        plans.push(p);
                    },
                    None => {},
                }
            },
            ScanEntry::Other => {},
            ScanEntry::Failed(f) => {
                failures.push(ScanFailure { path: copy_path(&f.path), cause: f.cause.clone() });
            },
        }
        assert(plans@.map_values(|p: Plan| plan_of(p)) == planned(*mode, game_dir@, next));
        i = i + 1;
    }
    assert(entries@.subrange(0, entries@.len() as int) == entries@);
    (plans, failures)
}

/// One run of the decryption over a game's tree, as a machine that is told
/// each outcome and answers with the next command. The manifest is found and
/// parsed, and its key decoded, before any asset is planned; the manifest is
/// updated only after every file was transformed.
pub struct Decryption {
    pub game_dir: String,
    pub mode: Mode,
    pub stage: Stage,
    pub layout: Layout,
    pub manifest: Option<SystemJson>,
    pub scan_failures: Vec<ScanFailure>,
}

/// Whether `cmd` and `new` are what a run in the state `old` answers to
/// `event`.
pub open spec fn stepped(old: Decryption, event: Event, new: Decryption, cmd: Command) -> bool {
    let dir = old.game_dir@;
    match (old.stage, event) {
        (Stage::CheckRoot, Event::Root(RootKind::Missing)) => new.stage == Stage::Done && cmd
            == Command::Finish(Err(DecryptionError::NotExists(old.game_dir))),
        (Stage::CheckRoot, Event::Root(RootKind::NotADirectory)) => new.stage == Stage::Done
            && cmd == Command::Finish(Err(DecryptionError::NotADirectory(old.game_dir))),
        (Stage::CheckRoot, Event::Root(RootKind::Directory)) => new.stage == Stage::FindLegacy
            && (cmd matches Command::CheckExists { path } && path@ == manifest_in(
            dir,
            Layout::Legacy,
        )),
        (Stage::FindLegacy, Event::Exists(true)) => new.stage == Stage::ReadManifest && new.layout
            == Layout::Legacy && (cmd matches Command::ReadText { path } && path@ == manifest_in(
            dir,
            Layout::Legacy,
        )),
        (Stage::FindLegacy, Event::Exists(false)) => new.stage == Stage::FindCurrent && (
        cmd matches Command::CheckExists { path } && path@ == manifest_in(dir, Layout::Current)),
        (Stage::FindCurrent, Event::Exists(true)) => new.stage == Stage::ReadManifest
            && new.layout == Layout::Current && (cmd matches Command::ReadText { path } && path@
            == manifest_in(dir, Layout::Current)),
        (Stage::FindCurrent, Event::Exists(false)) => new.stage == Stage::Done && cmd
            == Command::Finish(Err(DecryptionError::SystemJsonNotFound)),
        (Stage::ReadManifest, Event::Text(Err(c))) => new.stage == Stage::Done && (
        cmd matches Command::Finish(Err(DecryptionError::ReadSystemJson { path, cause }))
            && path@ == manifest_in(dir, old.layout) && cause == c),
        (Stage::ReadManifest, Event::Text(Ok(text))) => {
            ||| (new.stage == Stage::Scan && new.layout == old.layout && (new.manifest matches Some(
                sj,
            ) && parse_result(parsed_object(text@), Ok(sj))) && new.scan_failures@.len() == 0
                && (cmd matches Command::Scan { root } && root == old.game_dir))
            ||| (new.stage == Stage::Done && (cmd matches Command::Finish(
                Err(DecryptionError::ParseSystemJson { path, source }),
            ) && path@ == manifest_in(dir, old.layout) && parse_result(
                parsed_object(text@),
                Err(source),
            )))
        },
        (Stage::Scan, Event::Scanned(entries)) => new.stage == Stage::Transform && new.layout
            == old.layout && new.manifest == old.manifest && new.scan_failures@ == failed(entries@)
            && (cmd matches Command::Transform { plans, decrypter, remove_sources } && plans@.map_values(
            |p: Plan| plan_of(p),
        ) == planned(old.mode, dir, entries@) && decrypter@ == old.manifest.unwrap().encryption_key@
            && remove_sources == (old.mode is InPlace)),
        (Stage::Transform, Event::Transformed(files)) => if files@.len() == 0
            && old.scan_failures@.len() == 0 {
            let out = manifest_in(output_root(old.mode, dir), old.layout);
            &&& new.layout == old.layout
            &&& new.manifest matches Some(sj) && object_fields(sj.content) == finalized(
                old.mode,
                object_fields(old.manifest.unwrap().content),
            ) && sj.encryption_key == old.manifest.unwrap().encryption_key
            &&& new.stage == Stage::WriteManifest
            &&& cmd matches Command::WriteText { path, text } && path@ == out && (parsed_object(
                text@,
            ) matches Some(p) && string_fields(p) == string_fields(
                finalized(old.mode, object_fields(old.manifest.unwrap().content)),
            ))
        } else {
            new.stage == Stage::Done && cmd == Command::Finish(
                Err(DecryptionError::Incomplete { scan: old.scan_failures, files }),
            )
        },
        (Stage::WriteManifest, Event::Written(Ok(()))) => new.stage == Stage::Done && cmd
            == Command::Finish(Ok(())),
        (Stage::WriteManifest, Event::Written(Err(c))) => new.stage == Stage::Done && (
        cmd matches Command::Finish(
            Err(DecryptionError::MarkSystemJsonAsUnencrypted { path, cause }),
        ) && path@ == manifest_in(output_root(old.mode, dir), old.layout) && cause == c),
        _ => false,
    }
}

/// A run asks for files to be transformed only once it holds the parsed
/// manifest, and with that manifest's key as the mask.
pub proof fn lemma_transform_after_manifest(
    old: Decryption,
    event: Event,
    new: Decryption,
    cmd: Command,
)
    requires
        old.wf(),
        stepped(old, event, new, cmd),
        cmd is Transform,
    ensures
        old.stage == Stage::Scan,
        old.manifest is Some,
        cmd->decrypter@ == old.manifest.unwrap().encryption_key@,
{
}

/// A run asks for the manifest to be written only after a transform in which
/// every entry was scanned and every file transformed.
pub proof fn lemma_write_after_clean_transform(
    old: Decryption,
    event: Event,
    new: Decryption,
    cmd: Command,
)
    requires
        stepped(old, event, new, cmd),
        cmd is WriteText,
    ensures
        old.stage == Stage::Transform,
        old.scan_failures@.len() == 0,
        event matches Event::Transformed(files) && files@.len() == 0,
{
}

impl Decryption {
    /// Whether the parsed manifest is held from the scan on, nested no deeper
    /// than the parser accepts.
    pub open spec fn wf(&self) -> bool {
        match self.stage {
            Stage::Scan | Stage::Transform | Stage::WriteManifest => self.manifest matches Some(
                sj,
            ) && within_depth(sj.content),
            _ => true,
        }
    }

    /// Whether `event` answers the command this run is waiting on.
    pub open spec fn awaits(&self, event: Event) -> bool {
        match self.stage {
            Stage::CheckRoot => event is Root,
            Stage::FindLegacy | Stage::FindCurrent => event is Exists,
            Stage::ReadManifest => event is Text,
            Stage::Scan => event is Scanned,
            Stage::Transform => event is Transformed,
            Stage::WriteManifest => event is Written,
            Stage::Done => false,
        }
    }

    /// Tells whether `event` answers the command this run is waiting on.
    pub fn accepts(&self, event: &Event) -> (r: bool)
        ensures
            r == self.awaits(*event),
    {
        match self.stage {
            Stage::CheckRoot => matches!(event, Event::Root(_)),
            Stage::FindLegacy | Stage::FindCurrent => matches!(event, Event::Exists(_)),
            Stage::ReadManifest => matches!(event, Event::Text(_)),
            Stage::Scan => matches!(event, Event::Scanned(_)),
            Stage::Transform => matches!(event, Event::Transformed(_)),
            Stage::WriteManifest => matches!(event, Event::Written(_)),
            Stage::Done => false,
        }
    }

    /// Starts a run over the game at `game_dir`; the first command asks what
    /// the root is.
    pub fn new(game_dir: String, mode: Mode) -> (r: (Decryption, Command))
        ensures
            r.0.wf(),
            r.0.stage == Stage::CheckRoot,
            r.0.game_dir == game_dir,
            r.0.mode == mode,
            r.1 matches Command::CheckRoot { path } && path == game_dir,
    {
        let path = game_dir.clone();
        (
            Decryption {
                game_dir,
                mode,
                stage: Stage::CheckRoot,
                layout: Layout::Legacy,
                manifest: None,
                scan_failures: Vec::new(),
            },
            Command::CheckRoot { path },
        )
    }

    /// Takes the outcome of the last command and answers with the next one.
    pub fn step(&mut self, event: Event) -> (cmd: Command)
        requires
            old(self).wf(),
            old(self).awaits(event),
        ensures
            final(self).wf(),
            final(self).game_dir == old(self).game_dir,
            final(self).mode == old(self).mode,
            stepped(*old(self), event, *final(self), cmd),
    {
        match event {
            Event::Root(RootKind::Missing) => {
                self.stage = Stage::Done;
                Command::Finish(Err(DecryptionError::NotExists(self.game_dir.clone())))
            },
            Event::Root(RootKind::NotADirectory) => {
                self.stage = Stage::Done;
                Command::Finish(Err(DecryptionError::NotADirectory(self.game_dir.clone())))
            },
            Event::Root(RootKind::Directory) => {
                self.stage = Stage::FindLegacy;
                Command::CheckExists { path: manifest_path(self.game_dir.as_str(), Layout::Legacy) }
            },
            Event::Exists(found) => {
                let layout = if self.stage == Stage::FindLegacy {
                    Layout::Legacy
                } else {
                    Layout::Current
                };
                if found {
                    self.layout = layout;
                    self.stage = Stage::ReadManifest;
                    Command::ReadText { path: manifest_path(self.game_dir.as_str(), layout) }
                } else if layout == Layout::Legacy {
                    self.stage = Stage::FindCurrent;
                    Command::CheckExists {
                        path: manifest_path(self.game_dir.as_str(), Layout::Current),
                    }
                } else {
                    self.stage = Stage::Done;
                    Command::Finish(Err(DecryptionError::SystemJsonNotFound))
                }
            },
            Event::Text(read) => {
                let path = manifest_path(self.game_dir.as_str(), self.layout);
                match read {
                    Err(cause) => {
                        self.stage = Stage::Done;
                        Command::Finish(Err(DecryptionError::ReadSystemJson { path, cause }))
                    },
                    Ok(text) => match SystemJson::from_str(text.as_str()) {
                        Ok(sj) => {
                            self.manifest = Some(sj);
                            self.scan_failures = Vec::new();
                            self.stage = Stage::Scan;
                            Command::Scan { root: self.game_dir.clone() }
                        },
                        Err(source) => {
                            self.stage = Stage::Done;
                            Command::Finish(Err(DecryptionError::ParseSystemJson { path, source }))
                        },
                    },
                }
            },
            Event::Scanned(entries) => {
                let (plans, failures) = sort_entries(&self.mode, self.game_dir.as_str(), &entries);
                let decrypter = Decrypter::from_key(&self.manifest.as_ref().unwrap().encryption_key);
                let remove_sources = match &self.mode {
                    Mode::InPlace => true,
                    Mode::Mirrored { .. } => false,
                };
                self.scan_failures = failures;
                self.stage = Stage::Transform;
                Command::Transform { plans, decrypter, remove_sources }
            },
            Event::Transformed(files) => {
                if files.len() == 0 && self.scan_failures.len() == 0 {
                    let in_place = match &self.mode {
                        Mode::InPlace => true,
                        Mode::Mirrored { .. } => false,
                    };
                    let path = match &self.mode {
                        Mode::InPlace => manifest_path(self.game_dir.as_str(), self.layout),
                        Mode::Mirrored { dest_root } => manifest_path(dest_root.as_str(), self.layout),
                    };
                    let text = match &mut self.manifest {
                        Some(sj) => {
                            if in_place {
                                sj.mark_as_unencrypted();
                            } else {
                                sj.remove_encryption_info();
                            }
                            sj.to_json()
                        },
                        // `wf` holds the manifest from the scan on.
                        None => String::new(),
                    };
                    self.stage = Stage::WriteManifest;
                    Command::WriteText { path, text }
                } else {
                    let mut scan: Vec<ScanFailure> = Vec::new();
                    std::mem::swap(&mut scan, &mut self.scan_failures);
                    self.stage = Stage::Done;
                    Command::Finish(Err(DecryptionError::Incomplete { scan, files }))
                }
            },
            Event::Written(Ok(())) => {
                self.stage = Stage::Done;
                Command::Finish(Ok(()))
            },
            Event::Written(Err(cause)) => {
                let path = match &self.mode {
                    Mode::InPlace => manifest_path(self.game_dir.as_str(), self.layout),
                    Mode::Mirrored { dest_root } => manifest_path(dest_root.as_str(), self.layout),
                };
                self.stage = Stage::Done;
                Command::Finish(Err(DecryptionError::MarkSystemJsonAsUnencrypted { path, cause }))
            },
        }
    }
}

} // verus!
