//! What holds of every fetch, whatever the store answers.
//!
//! A store is described by the answers it gives to the questions of a
//! fetch. Driving a fetch against such answers shows how it ends.

use vstd::prelude::*;
use crate::errors::ErrorKindView;
use crate::errors::FetchErrorView;
use crate::expand::ManifestChildView;
use crate::expand::LARGE_TREE_METADATA_LIMIT;
use crate::fetch::AugmentedManifestView;
use crate::fetch::ClassicManifest;
use crate::fetch::FetchActionView;
use crate::fetch::FetchEventView;
use crate::fetch::FetchStepView;
use crate::fetch::TreeFetchView;
use crate::model::HgId;
use crate::model::KeyView;
use crate::model::Parents;
use crate::model::TreeAttributes;
use crate::model::TreeChildView;
use crate::model::TreeEntryView;
use crate::upload::TreeWriteView;
use crate::upload::UploadTreeEntryView;

verus! {

/// The answers of a store to the questions of one fetch.
pub struct Answers {
    pub augmented: Result<Option<AugmentedManifestView>, Seq<char>>,
    pub classic: Result<Option<ClassicManifest>, Seq<char>>,
    pub content: Result<Seq<u8>, Seq<char>>,
    pub listing: Result<Seq<ManifestChildView>, Seq<char>>,
    pub expanded: Result<Seq<TreeChildView>, FetchErrorView>,
}

impl Answers {
    /// The answer to a question.
    pub open spec fn reply(self, action: FetchActionView) -> FetchEventView {
        match action {
            FetchActionView::LoadAugmented(_) => FetchEventView::Augmented(self.augmented),
            FetchActionView::LoadClassic(_) => FetchEventView::Classic(self.classic),
            FetchActionView::FetchContent(_) => FetchEventView::Content(self.content),
            FetchActionView::ListChildren(_) => FetchEventView::Listed(self.listing),
            FetchActionView::Expand(_) => FetchEventView::Expanded(self.expanded),
        }
    }
}

/// Answers up to `rounds` more questions.
pub open spec fn drive(step: FetchStepView, answers: Answers, rounds: nat) -> FetchStepView
    decreases rounds,
{
    if rounds == 0 {
        step
    } else {
        match step {
            FetchStepView::Ask(fetch, action) => drive(
                fetch.step(answers.reply(action)),
                answers,
                (rounds - 1) as nat,
            ),
            FetchStepView::Done(_) => step,
        }
    }
}

/// How the fetch of `key` ends against these answers.
pub open spec fn fetch_outcome(
    key: KeyView,
    attributes: TreeAttributes,
    answers: Answers,
) -> FetchStepView {
    drive(TreeFetchView::initial(key, attributes).step(FetchEventView::Begin), answers, 4)
}

pub open spec fn tree_fetch_failed(key: KeyView, cause: Seq<char>) -> FetchStepView {
    FetchStepView::Done(
        Err(FetchErrorView { kind: ErrorKindView::TreeFetchFailed(key), cause: Some(cause) }),
    )
}

pub open spec fn key_does_not_exist(key: KeyView) -> FetchStepView {
    FetchStepView::Done(
        Err(FetchErrorView { kind: ErrorKindView::KeyDoesNotExist(key), cause: None }),
    )
}

/// How a fetch by the augmented path ends.
pub open spec fn augmented_outcome(key: KeyView, answers: Answers) -> FetchStepView {
    match answers.augmented {
        Err(c) => tree_fetch_failed(key, c),
        Ok(None) => key_does_not_exist(key),
        Ok(Some(m)) => match answers.content {
            Err(c) => tree_fetch_failed(key, c),
            Ok(b) => FetchStepView::Done(
                Ok(
                    TreeEntryView {
                        key,
                        data: Some(b),
                        parents: Some(m.parents),
                        children: Some(m.children()),
                        tree_aux_data: Some(m.directory_metadata()),
                    },
                ),
            ),
        },
    }
}

/// The child list of a fetch by the classic path: none unless child
/// metadata was asked for, and none for a directory over the limit.
pub open spec fn classic_children(attributes: TreeAttributes, answers: Answers) -> Option<
    Seq<TreeChildView>,
> {
    if attributes.child_metadata && answers.listing is Ok && answers.listing->Ok_0.len()
        <= LARGE_TREE_METADATA_LIMIT && answers.expanded is Ok {
        Some(answers.expanded->Ok_0)
    } else {
        None
    }
}

/// How a fetch by the classic path ends.
pub open spec fn classic_outcome(
    key: KeyView,
    attributes: TreeAttributes,
    answers: Answers,
) -> FetchStepView {
    match answers.classic {
        Err(c) => tree_fetch_failed(key, c),
        Ok(None) => key_does_not_exist(key),
        Ok(Some(m)) => {
            if attributes.manifest_blob && answers.content is Err {
                tree_fetch_failed(key, answers.content->Err_0)
            } else if attributes.child_metadata && answers.listing is Err {
                tree_fetch_failed(key, answers.listing->Err_0)
            } else if attributes.child_metadata && answers.listing->Ok_0.len()
                <= LARGE_TREE_METADATA_LIMIT && answers.expanded is Err {
                FetchStepView::Done(Err(answers.expanded->Err_0))
            } else {
                FetchStepView::Done(
                    Ok(
                        TreeEntryView {
                            key,
                            data: if attributes.manifest_blob {
                                Some(answers.content->Ok_0)
                            } else {
                                None
                            },
                            parents: if attributes.parents {
                                Some(m.parents)
                            } else {
                                None
                            },
                            children: classic_children(attributes, answers),
                            tree_aux_data: None,
                        },
                    ),
                )
            }
        },
    }
}

/// Every fetch ends after at most four answers, and it ends as its path
/// says: by the augmented path where augmented trees were asked for, by the
/// classic path otherwise.
pub proof fn lemma_fetch_ends(key: KeyView, attributes: TreeAttributes, answers: Answers)
    ensures
        fetch_outcome(key, attributes, answers) is Done,
        attributes.augmented_trees ==> fetch_outcome(key, attributes, answers) == augmented_outcome(
            key,
            answers,
        ),
        !attributes.augmented_trees ==> fetch_outcome(key, attributes, answers) == classic_outcome(
            key,
            attributes,
            answers,
        ),
{
    reveal_with_fuel(drive, 5);
}

/// An entry that comes by the augmented path is complete, whatever else was
/// asked for: it has parents, directory metadata, raw bytes and a child
/// list, and each child is a file or a directory as its manifest entry is.
pub proof fn lemma_augmented_entry_is_complete(
    key: KeyView,
    attributes: TreeAttributes,
    answers: Answers,
    entry: TreeEntryView,
)
    requires
        attributes.augmented_trees,
        fetch_outcome(key, attributes, answers) == FetchStepView::Done(
            Ok::<TreeEntryView, FetchErrorView>(entry),
        ),
    ensures
        answers.augmented matches Ok(Some(m)) && answers.content matches Ok(b) && entry.key == key
            && entry.parents == Some(m.parents) && entry.tree_aux_data == Some(
            m.directory_metadata(),
        ) && entry.data == Some(b) && entry.children == Some(m.children())
            && m.children().len() == m.entries.len() && (forall|i: int|
            0 <= i < m.entries.len() ==> ((#[trigger] m.children()[i]) is File
                <==> m.entries[i] is FileNode)),
{
    lemma_fetch_ends(key, attributes, answers);
}

/// An entry that comes by the classic path has a field if and only if the
/// field was asked for: bytes with `manifest_blob`, parents with `parents`,
/// and a child list with `child_metadata`, unless the directory is over the
/// limit. It never has directory metadata.
pub proof fn lemma_classic_fields_follow_flags(
    key: KeyView,
    attributes: TreeAttributes,
    answers: Answers,
    entry: TreeEntryView,
)
    requires
        !attributes.augmented_trees,
        fetch_outcome(key, attributes, answers) == FetchStepView::Done(
            Ok::<TreeEntryView, FetchErrorView>(entry),
        ),
    ensures
        entry.key == key,
        entry.data is Some <==> attributes.manifest_blob,
        attributes.manifest_blob ==> answers.content == Ok::<Seq<u8>, Seq<char>>(
            entry.data->Some_0,
        ),
        entry.parents is Some <==> attributes.parents,
        attributes.parents ==> (answers.classic matches Ok(Some(m)) && entry.parents == Some(
            m.parents,
        )),
        entry.children is Some <==> attributes.child_metadata && answers.listing->Ok_0.len()
            <= LARGE_TREE_METADATA_LIMIT,
        entry.children is Some ==> answers.expanded == Ok::<Seq<TreeChildView>, FetchErrorView>(
            entry.children->Some_0,
        ),
        entry.tree_aux_data is None,
{
    lemma_fetch_ends(key, attributes, answers);
}

/// A classic directory with more entries than the limit gets an entry
/// without a child list, and no error, where the manifest and, if asked for,
/// its bytes can be had.
pub proof fn lemma_large_directory_has_no_child_list(
    key: KeyView,
    attributes: TreeAttributes,
    answers: Answers,
)
    requires
        !attributes.augmented_trees,
        attributes.child_metadata,
        answers.classic matches Ok(Some(_)),
        attributes.manifest_blob ==> answers.content is Ok,
        answers.listing matches Ok(l) && l.len() > LARGE_TREE_METADATA_LIMIT,
    ensures
        fetch_outcome(key, attributes, answers) matches FetchStepView::Done(Ok(entry))
            && entry.children is None,
{
    lemma_fetch_ends(key, attributes, answers);
}

/// A fetch for a key whose identifier resolves to nothing ends with "key
/// does not exist" for that key, by either path.
pub proof fn lemma_missing_key(key: KeyView, attributes: TreeAttributes, answers: Answers)
    requires
        attributes.augmented_trees ==> answers.augmented == Ok::<
            Option<AugmentedManifestView>,
            Seq<char>,
        >(None),
        !attributes.augmented_trees ==> answers.classic == Ok::<Option<ClassicManifest>, Seq<char>>(
            None,
        ),
    ensures
        fetch_outcome(key, attributes, answers) == key_does_not_exist(key),
{
    lemma_fetch_ends(key, attributes, answers);
}

/// The parents that a store holds for a write.
pub open spec fn written_parents(w: TreeWriteView) -> Parents {
    match (w.p1, w.p2) {
        (Some(a), Some(b)) => Parents::Two(a, b),
        (Some(a), None) => Parents::One(a),
        _ => Parents::Zero,
    }
}

/// The answers of a store that holds the trees in `trees` to a fetch of the
/// tree `id`, with `rest` for what such a store does not settle.
pub open spec fn answers_from(trees: Map<HgId, TreeWriteView>, id: HgId, rest: Answers) -> Answers {
    if trees.contains_key(id) {
        Answers {
            classic: Ok(Some(ClassicManifest { parents: written_parents(trees[id]) })),
            content: Ok(trees[id].contents),
            ..rest
        }
    } else {
        Answers { classic: Ok(None), ..rest }
    }
}

/// Round trip. Against a store that returns what was written to it: after
/// the write for an upload item with identifier R, parents P and bytes B, a
/// fetch of R by the classic path with `manifest_blob` that ends with an
/// entry returns exactly B, and P where parents were asked for. Without
/// child metadata the fetch does end with an entry.
pub proof fn lemma_upload_then_fetch(
    trees: Map<HgId, TreeWriteView>,
    item: UploadTreeEntryView,
    path: Seq<char>,
    attributes: TreeAttributes,
    rest: Answers,
)
    requires
        !attributes.augmented_trees,
        attributes.manifest_blob,
    ensures
        ({
            let key = KeyView { path, hgid: item.node_id };
            let after = trees.insert(item.write().node_id, item.write());
            let outcome = fetch_outcome(key, attributes, answers_from(after, item.node_id, rest));
            &&& outcome matches FetchStepView::Done(Ok(entry)) ==> entry.data == Some(item.data)
                && (attributes.parents ==> entry.parents == Some(item.parents))
            &&& !attributes.child_metadata ==> outcome matches FetchStepView::Done(Ok(_))
        }),
{
    let key = KeyView { path, hgid: item.node_id };
    let after = trees.insert(item.write().node_id, item.write());
    lemma_fetch_ends(key, attributes, answers_from(after, item.node_id, rest));
}

} // verus!
