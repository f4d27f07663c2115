//! How the bridge state is kept in its directory.
//!
//! Saving is a list of file operations, carried out in order by the caller; a
//! small model of the directory says what they amount to, also where they are
//! cut short.

use crate::identity;
use crate::identity::{BridgeState, BridgeStateView, Identity, StateError};
use vstd::prelude::*;

verus! {

/// Access for the owner alone, on the state directory.
pub const PRIVATE_DIR_MODE: u32 = 0o700;

/// Access for the owner alone, on the state file.
pub const PRIVATE_FILE_MODE: u32 = 0o600;

/// One operation on the state directory and the files in it.
#[derive(Debug)]
pub enum SaveStep {
    /// Make sure that the directory and those above it exist.
    CreateDir,
    /// Set the permissions of the directory.
    SetDirMode { mode: u32 },
    /// Replace the contents of a file, or make it.
    Write { file: String, bytes: Vec<u8> },
    /// Set the permissions of a file.
    SetFileMode { file: String, mode: u32 },
    /// Give a file another name, in place of the file that had it.
    Rename { from: String, to: String },
}

/// The contents of a `SaveStep`.
#[verifier::ext_equal]
pub enum SaveStepView {
    CreateDir,
    SetDirMode { mode: u32 },
    Write { file: Seq<char>, bytes: Seq<u8> },
    SetFileMode { file: Seq<char>, mode: u32 },
    Rename { from: Seq<char>, to: Seq<char> },
}

impl View for SaveStep {
    type V = SaveStepView;

    open spec fn view(&self) -> SaveStepView {
        match self {
            SaveStep::CreateDir => SaveStepView::CreateDir,
            SaveStep::SetDirMode { mode } => SaveStepView::SetDirMode { mode: *mode },
            SaveStep::Write { file, bytes } => SaveStepView::Write { file: file@, bytes: bytes@ },
            SaveStep::SetFileMode { file, mode } => SaveStepView::SetFileMode {
                file: file@,
                mode: *mode,
            },
            SaveStep::Rename { from, to } => SaveStepView::Rename { from: from@, to: to@ },
        }
    }
}

/// The contents of a list of steps.
pub open spec fn steps_view(steps: Seq<SaveStep>) -> Seq<SaveStepView> {
    steps.map_values(|s: SaveStep| s@)
}

/// The steps that save a state file with the contents `bytes`: the new file is
/// written beside the old one, in a directory closed to others, and takes its
/// place once it is closed to others too.
pub open spec fn save_steps(bytes: Seq<u8>) -> Seq<SaveStepView> {
    seq![
        SaveStepView::CreateDir,
        SaveStepView::SetDirMode { mode: PRIVATE_DIR_MODE },
        SaveStepView::Write { file: identity::STATE_TMP_FILE@, bytes },
        SaveStepView::SetFileMode { file: identity::STATE_TMP_FILE@, mode: PRIVATE_FILE_MODE },
        SaveStepView::Rename { from: identity::STATE_TMP_FILE@, to: identity::STATE_FILE@ },
    ]
}

/// What was found where the state file should be.
#[derive(Debug)]
pub enum Stored {
    /// There is no state file; here is a new identity.
    Missing { generated: Identity },
    /// The contents of the state file, and what the encoded identity in it
    /// stands for, or `None` where it stands for nothing.
    Found { bytes: Vec<u8>, identity: Option<Identity> },
}

/// The state at the start of a run, and the steps that save it where it is new.
#[derive(Debug)]
pub struct Loaded {
    pub state: BridgeState,
    pub save: Option<Vec<SaveStep>>,
}

/// The state at the start of a run.
pub open spec fn start_state(stored: Stored) -> Result<BridgeStateView, StateError> {
    match stored {
        Stored::Missing { generated } => Ok(
            BridgeStateView { identity: generated@, device_xid: None },
        ),
        Stored::Found { bytes, identity } => identity::stored_state(
            bytes@,
            identity::identity_view(identity),
        ),
    }
}

impl BridgeState {
    /// The steps that save this state. Where the state is well-formed, reading
    /// the file that they leave gives it back.
    pub fn save(&self) -> (r: Vec<SaveStep>)
        ensures
            steps_view(r@) == save_steps(self@.bytes()),
            self@.well_formed() ==> identity::stored_state(
                self@.bytes(),
                Some(self.identity@),
            ) == Ok::<BridgeStateView, StateError>(self@),
    {
        let mut steps: Vec<SaveStep> = Vec::new();
        steps.push(SaveStep::CreateDir);
        steps.push(SaveStep::SetDirMode { mode: PRIVATE_DIR_MODE });
        steps.push(
            SaveStep::Write { file: identity::STATE_TMP_FILE.to_owned(), bytes: self.to_bytes() },
        );
        steps.push(
            SaveStep::SetFileMode {
                file: identity::STATE_TMP_FILE.to_owned(),
                mode: PRIVATE_FILE_MODE,
            },
        );
        steps.push(
            SaveStep::Rename {
                from: identity::STATE_TMP_FILE.to_owned(),
                to: identity::STATE_FILE.to_owned(),
            },
        );
        assert(steps_view(steps@) =~= save_steps(self@.bytes()));
        steps
    }

    /// The state in the state file, or a new one where there is no file yet.
    /// Only a new state has to be saved.
    pub fn load_or_create(stored: Stored) -> (r: Result<Loaded, StateError>)
        ensures
            start_state(stored) == (match r {
                Ok(loaded) => Ok::<BridgeStateView, StateError>(loaded.state@),
                Err(e) => Err(e),
            }),
            r matches Ok(loaded) ==> {
                &&& loaded.state@.well_formed()
                &&& loaded.save is Some <==> stored is Missing
                &&& loaded.save matches Some(steps) ==> steps_view(steps@) == save_steps(
                    loaded.state@.bytes(),
                )
            },
    {
        match stored {
            Stored::Missing { generated } => {
                let state = BridgeState::new(generated);
                let save = Some(state.save());
                Ok(Loaded { state, save })
            },
            Stored::Found { bytes, identity } => {
                match BridgeState::from_bytes(&bytes, identity) {
                    Ok(state) => Ok(Loaded { state, save: None }),
                    Err(e) => Err(e),
                }
            },
        }
    }
}

// ---------------------------------------------------------------------------
// What saving amounts to
// ---------------------------------------------------------------------------

/// A file: its contents and its permissions, `None` for those that the system
/// gives a new file.
#[verifier::ext_equal]
pub struct FileView {
    pub bytes: Seq<u8>,
    pub mode: Option<u32>,
}

/// The state directory: its permissions, `None` for those that it had before,
/// and the files in it.
#[verifier::ext_equal]
pub struct DirView {
    pub mode: Option<u32>,
    pub files: Map<Seq<char>, FileView>,
}

impl DirView {
    /// The directory after one step.
    pub open spec fn after(self, step: SaveStepView) -> DirView {
        match step {
            SaveStepView::CreateDir => self,
            SaveStepView::SetDirMode { mode } => DirView { mode: Some(mode), ..self },
            SaveStepView::Write { file, bytes } => {
                let mode = if self.files.contains_key(file) {
                    self.files[file].mode
                } else {
                    None
                };
                DirView { files: self.files.insert(file, FileView { bytes, mode }), ..self }
            },
            SaveStepView::SetFileMode { file, mode } => if self.files.contains_key(file) {
                DirView {
                    files: self.files.insert(
                        file,
                        FileView { mode: Some(mode), ..self.files[file] },
                    ),
                    ..self
                }
            } else {
                self
            },
            SaveStepView::Rename { from, to } => if self.files.contains_key(from) {
                DirView {
                    files: self.files.remove(from).insert(to, self.files[from]),
                    ..self
                }
            } else {
                self
            },
        }
    }

    /// The directory after the steps, in order.
    pub open spec fn after_all(self, steps: Seq<SaveStepView>) -> DirView
        decreases steps.len(),
    {
        if steps.len() == 0 {
            self
        } else {
            self.after_all(steps.drop_last()).after(steps.last())
        }
    }
}

/// Steps are seen as they stand, all of them and in their order.
pub proof fn law_steps_are_seen_as_they_stand(steps: Seq<SaveStep>, i: int)
    requires
        0 <= i < steps.len(),
    ensures
        steps_view(steps).len() == steps.len(),
        steps_view(steps)[i] == (match steps[i] {
            SaveStep::CreateDir => SaveStepView::CreateDir,
            SaveStep::SetDirMode { mode } => SaveStepView::SetDirMode { mode },
            SaveStep::Write { file, bytes } => SaveStepView::Write { file: file@, bytes: bytes@ },
            SaveStep::SetFileMode { file, mode } => SaveStepView::SetFileMode { file: file@, mode },
            SaveStep::Rename { from, to } => SaveStepView::Rename { from: from@, to: to@ },
        }),
{
}

/// A file that is written holds just what was written, one that is given
/// permissions keeps its contents, and one that is renamed keeps both and takes
/// the place of the file that had the name. No step touches any other file.
pub proof fn law_steps_change_what_they_name(
    dir: DirView,
    file: Seq<char>,
    to: Seq<char>,
    bytes: Seq<u8>,
    mode: u32,
    other: Seq<char>,
)
    requires
        other != file,
    ensures
        dir.after(SaveStepView::CreateDir) == dir,
        dir.after(SaveStepView::SetDirMode { mode }).mode == Some(mode),
        dir.after(SaveStepView::SetDirMode { mode }).files == dir.files,
        ({
            let now = dir.after(SaveStepView::Write { file, bytes });
            &&& now.mode == dir.mode
            &&& now.files.contains_key(file)
            &&& now.files[file].bytes == bytes
            &&& now.files.get(other) == dir.files.get(other)
        }),
        ({
            let now = dir.after(SaveStepView::SetFileMode { file, mode });
            &&& now.mode == dir.mode
            &&& dir.files.contains_key(file) ==> now.files.contains_key(file)
                && now.files[file].mode == Some(mode) && now.files[file].bytes
                == dir.files[file].bytes
            &&& now.files.get(other) == dir.files.get(other)
        }),
        ({
            let now = dir.after(SaveStepView::Rename { from: file, to });
            &&& now.mode == dir.mode
            &&& dir.files.contains_key(file) ==> now.files.get(to) == dir.files.get(file)
            &&& dir.files.contains_key(file) && to != file ==> !now.files.contains_key(file)
            &&& other != to ==> now.files.get(other) == dir.files.get(other)
        }),
{
}

/// Steps are carried out in their order, from the first to the last.
pub proof fn law_steps_are_taken_in_order(
    dir: DirView,
    first: SaveStepView,
    rest: Seq<SaveStepView>,
)
    ensures
        dir.after_all(seq![first] + rest) == dir.after(first).after_all(rest),
        dir.after_all(Seq::empty()) == dir,
    decreases rest.len(),
{
    if rest.len() > 0 {
        assert((seq![first] + rest).drop_last() =~= seq![first] + rest.drop_last());
        assert((seq![first] + rest).last() == rest.last());
        law_steps_are_taken_in_order(dir, first, rest.drop_last());
    } else {
        assert((seq![first] + rest).drop_last() =~= Seq::empty());
        assert((seq![first] + rest).last() == first);
    }
}

/// What a run leaves behind is what the next run finds: the file of the name
/// that is looked for, with the contents of the state, readable and writable by
/// its owner alone, in a directory open to its owner alone.
pub proof fn law_saved_state_is_private(dir: DirView, bytes: Seq<u8>)
    ensures
        ({
            let now = dir.after_all(save_steps(bytes));
            &&& now.mode == Some(0o700u32)
            &&& now.files.contains_key("surf-bridge-state.bin"@)
            &&& now.files["surf-bridge-state.bin"@].bytes == bytes
            &&& now.files["surf-bridge-state.bin"@].mode == Some(0o600u32)
            &&& !now.files.contains_key("surf-bridge-state.tmp"@)
        }),
{
    law_save_replaces_state_file(dir, bytes);
    lemma_names_differ();
}

/// A run that finds no state file starts with the new identity and no device; one
/// that finds a state file starts with what it holds, or not at all.
pub proof fn law_start_state_is_the_stored_one(
    generated: Identity,
    bytes: Vec<u8>,
    identity: Option<Identity>,
)
    ensures
        start_state(Stored::Missing { generated }) matches Ok(state) && state.identity
            == generated@ && state.device_xid is None,
        start_state(Stored::Found { bytes, identity }) == identity::stored_state(
            bytes@,
            identity::identity_view(identity),
        ),
{
}

/// Saving leaves the new state file, closed to others, in a directory closed to
/// others, and no other file is touched but the temporary one, which is gone.
pub proof fn law_save_replaces_state_file(dir: DirView, bytes: Seq<u8>)
    ensures
        dir.after_all(save_steps(bytes)) == (DirView {
            mode: Some(PRIVATE_DIR_MODE),
            files: dir.files.remove(identity::STATE_TMP_FILE@).insert(
                identity::STATE_FILE@,
                FileView { bytes, mode: Some(PRIVATE_FILE_MODE) },
            ),
        }),
{
    lemma_prefixes(dir, bytes);
    lemma_names_differ();
    assert(save_steps(bytes).take(5) =~= save_steps(bytes));
    assert(dir.after_all(save_steps(bytes)).files =~= dir.files.remove(
        identity::STATE_TMP_FILE@,
    ).insert(identity::STATE_FILE@, FileView { bytes, mode: Some(PRIVATE_FILE_MODE) }));
}

/// Wherever saving is cut short, the state file is the old one, untouched, or
/// the whole new one, closed to others.
pub proof fn law_save_is_all_or_nothing(dir: DirView, bytes: Seq<u8>, n: int)
    requires
        0 <= n <= save_steps(bytes).len(),
    ensures
        ({
            let now = dir.after_all(save_steps(bytes).take(n)).files.get(identity::STATE_FILE@);
            ||| now == dir.files.get(identity::STATE_FILE@)
            ||| now == Some(FileView { bytes, mode: Some(PRIVATE_FILE_MODE) })
        }),
{
    lemma_prefixes(dir, bytes);
    lemma_names_differ();
    assert(n == 0 || n == 1 || n == 2 || n == 3 || n == 4 || n == 5);
}

/// Wherever saving is cut short, no file has changed unless the directory was
/// closed to others before.
pub proof fn law_save_writes_behind_closed_directory(dir: DirView, bytes: Seq<u8>, n: int)
    requires
        0 <= n <= save_steps(bytes).len(),
    ensures
        ({
            let now = dir.after_all(save_steps(bytes).take(n));
            now.files != dir.files ==> now.mode == Some(PRIVATE_DIR_MODE)
        }),
{
    lemma_prefixes(dir, bytes);
    assert(n == 0 || n == 1 || n == 2 || n == 3 || n == 4 || n == 5);
}

proof fn lemma_names_differ()
    ensures
        identity::STATE_FILE@ != identity::STATE_TMP_FILE@,
{
    reveal_strlit("surf-bridge-state.bin");
    reveal_strlit("surf-bridge-state.tmp");
    assert(identity::STATE_FILE@[18] == 'b');
    assert(identity::STATE_TMP_FILE@[18] == 't');
}

/// The directory after each number of steps.
proof fn lemma_prefixes(dir: DirView, bytes: Seq<u8>)
    ensures
        ({
            let s = save_steps(bytes);
            &&& dir.after_all(s.take(0)) == dir
            &&& dir.after_all(s.take(1)) == dir
            &&& dir.after_all(s.take(2)) == dir.after(s[1])
            &&& dir.after_all(s.take(3)) == dir.after(s[1]).after(s[2])
            &&& dir.after_all(s.take(4)) == dir.after(s[1]).after(s[2]).after(s[3])
            &&& dir.after_all(s.take(5)) == dir.after(s[1]).after(s[2]).after(s[3]).after(s[4])
        }),
{
    let s = save_steps(bytes);
    lemma_one_more(dir, s, 0);
    lemma_one_more(dir, s, 1);
    lemma_one_more(dir, s, 2);
    lemma_one_more(dir, s, 3);
    lemma_one_more(dir, s, 4);
}

proof fn lemma_one_more(dir: DirView, s: Seq<SaveStepView>, n: int)
    requires
        0 <= n < s.len(),
    ensures
        dir.after_all(s.take(n + 1)) == dir.after_all(s.take(n)).after(s[n]),
{
    assert(s.take(n + 1).drop_last() =~= s.take(n));
    assert(s.take(n + 1).last() == s[n]);
}

} // verus!
