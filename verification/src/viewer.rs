use vstd::prelude::*;

use crate::cache::{check_spec, record_of, EntryModel, FileState, FileStateModel};

verus! {

/// What the cache needs after a check, besides showing the image.
#[derive(Debug, PartialEq, Eq, Structural)]
pub enum CacheAction {
    /// Render the image anew, then write the file's record.
    Regenerate,
    /// The image is in place: only write the file's record again.
    Refresh,
}

/// How a checked file is shown: its image, what the cache needs, and whether
/// to warn that the file changed since it was last viewed.
#[derive(Debug)]
pub struct RenderPlan {
    pub img_path: String,
    pub action: CacheAction,
    pub was_modified: bool,
}

/// Whether a file in the given state is rendered anew before it is shown.
pub open spec fn regenerates(state: FileStateModel, image_exists: bool) -> bool {
    !(state is Unchanged) || !image_exists
}

/// Whether the viewer warns that the file changed since it was last viewed.
pub open spec fn warns(state: FileStateModel) -> bool {
    state is Modified
}

/// Decides how to show a checked file. A new or modified file is rendered
/// anew; an unchanged one only when its image has gone missing, and otherwise
/// its record is written again so that its current modification time is kept.
/// Only a modified file raises the warning.
pub fn plan_render(state: FileState, image_exists: bool) -> (plan: RenderPlan)
    ensures
        plan.img_path@ == state@.image_path(),
        plan.was_modified == warns(state@),
        (plan.action == CacheAction::Regenerate) == regenerates(state@, image_exists),
        (plan.action == CacheAction::Refresh) == !regenerates(state@, image_exists),
        !(state is Unchanged) ==> plan.action == CacheAction::Regenerate,
        (state is Unchanged && image_exists) ==> plan.action == CacheAction::Refresh,
        (state is Unchanged && !image_exists) ==> plan.action == CacheAction::Regenerate,
        plan.was_modified == (state is Modified),
{
    match state {
        FileState::Unchanged(p) => {
            let action = if !image_exists {
                CacheAction::Regenerate
            } else {
                CacheAction::Refresh
            };
            RenderPlan { img_path: p, action, was_modified: false }
        },
        FileState::Modified(p) => RenderPlan {
            img_path: p,
            action: CacheAction::Regenerate,
            was_modified: true,
        },
        FileState::New(p) => RenderPlan {
            img_path: p,
            action: CacheAction::Regenerate,
            was_modified: false,
        },
    }
}

/// A file whose contents still hash to the recorded digest is never reported
/// as modified, whatever its modification time and size now are.
pub proof fn lemma_same_contents_never_warn(
    cached: EntryModel,
    mtime: u64,
    size: u64,
    cache_dir: Seq<char>,
    digest: Seq<u8>,
)
    requires
        cached.hash == digest,
    ensures
        !warns(check_spec(Some(cached), mtime, size, cache_dir, digest).0),
{
}

/// Once a check's result is written back, viewing the file again with the
/// same modification time and size while its image is in place neither renders
/// it anew nor warns.
pub proof fn lemma_recorded_file_is_shown_from_cache(
    cached: Option<EntryModel>,
    mtime: u64,
    size: u64,
    cache_dir: Seq<char>,
    digest: Seq<u8>,
    later_digest: Seq<u8>,
)
    ensures
        ({
            let first = check_spec(cached, mtime, size, cache_dir, digest);
            let again = check_spec(Some(record_of(first)), mtime, size, cache_dir, later_digest);
            &&& !regenerates(again.0, true)
            &&& !warns(again.0)
            &&& again.0.image_path() == first.0.image_path()
        }),
{
}

/// A new or modified file is always rendered anew, whether or not an image is
/// already at its path; an unchanged file is rendered only when its image is
/// missing, and only a modified file raises the warning.
pub proof fn lemma_render_decisions(p: Seq<char>, image_exists: bool)
    ensures
        regenerates(FileStateModel::New(p), image_exists),
        regenerates(FileStateModel::Modified(p), image_exists),
        regenerates(FileStateModel::Unchanged(p), false),
        !regenerates(FileStateModel::Unchanged(p), true),
        warns(FileStateModel::Modified(p)),
        !warns(FileStateModel::New(p)),
        !warns(FileStateModel::Unchanged(p)),
{
}

/// The character shown for a byte under the pointer: the byte itself when it
/// is printable ASCII (space to `~`), else `.`.
pub fn display_char(byte: u8) -> (c: char)
    ensures
        c == (if 32 <= byte <= 126 { byte as char } else { '.' }),
        32 <= c as u32 <= 126,
{
    if byte >= 32 && byte <= 126 {
        byte as char
    } else {
        '.'
    }
}

} // verus!
