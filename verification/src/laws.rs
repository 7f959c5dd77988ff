//! What holds of the extractor's and the packer's decisions taken together.

use crate::codec::joined_path;
use crate::codec::name_is_enclosed;
use crate::codec::parent_path;
use crate::codec::relative_to;
use crate::extract::extraction_plan;
use crate::extract::planned_step;
use crate::extract::planned_steps;
use crate::extract::StepView;
use crate::names::spec_is_directory_name;
use crate::names::spec_is_refused_name;
use crate::pack::entry_record;
use crate::pack::node_records;
use crate::pack::spec_entry_for;
use crate::pack::spec_marker_name;
use crate::pack::tree_records;
use crate::pack::PackEntryView;
use crate::pack::SourceNode;
use vstd::prelude::*;

verus! {

/// Each entry is handled on its own: the steps for two runs of entries, one
/// after the other, are the steps for the first run followed by the steps for
/// the second.
pub proof fn law_entries_planned_independently(
    dest: Seq<char>,
    first: Seq<(Seq<char>, Seq<u8>)>,
    second: Seq<(Seq<char>, Seq<u8>)>,
)
    ensures
        planned_steps(dest, first + second) == planned_steps(dest, first) + planned_steps(
            dest,
            second,
        ),
    decreases second.len(),
{
    if second.len() == 0 {
        assert(first + second == first);
        assert(planned_steps(dest, first) + Seq::<StepView>::empty() == planned_steps(dest, first));
    } else {
        let whole = first + second;
        assert(whole.last() == second.last());
        assert(whole.drop_last() == first + second.drop_last());
        law_entries_planned_independently(dest, first, second.drop_last());
        match planned_step(dest, second.last()) {
            Some(step) => {
                assert(planned_steps(dest, first) + planned_steps(dest, second.drop_last()).push(
                    step,
                ) == (planned_steps(dest, first) + planned_steps(dest, second.drop_last())).push(
                    step,
                ));
            },
            None => {},
        }
    }
}

/// Whether an entry name is skipped: the codec finds no safe destination
/// for it, or it is empty, starts at the root or holds a `..` component.
pub open spec fn is_skipped_name(name: Seq<char>) -> bool {
    !name_is_enclosed(name) || name.len() == 0 || spec_is_refused_name(name)
}

/// An entry with a skipped name gets no step, and the steps of the entries
/// around it are what they would be without it.
pub proof fn law_unsafe_entry_skipped(
    dest: Seq<char>,
    before: Seq<(Seq<char>, Seq<u8>)>,
    entry: (Seq<char>, Seq<u8>),
    after: Seq<(Seq<char>, Seq<u8>)>,
)
    ensures
        is_skipped_name(entry.0) ==> planned_step(dest, entry) is None,
        is_skipped_name(entry.0) ==> planned_steps(dest, before.push(entry) + after)
            == planned_steps(dest, before + after),
{
    if is_skipped_name(entry.0) {
        assert(before.push(entry).last() == entry);
        assert(before.push(entry).drop_last() == before);
        assert(planned_steps(dest, before.push(entry)) == planned_steps(dest, before));
        law_entries_planned_independently(dest, before.push(entry), after);
        law_entries_planned_independently(dest, before, after);
    }
}

/// A name with a parent-directory component is skipped whatever the codec
/// says of it, also where the component stays inside the destination, and
/// so is a name that starts at the root.
pub proof fn law_parent_component_skipped(dest: Seq<char>, entry: (Seq<char>, Seq<u8>))
    ensures
        spec_is_refused_name(entry.0) ==> planned_step(dest, entry) is None,
{
}

/// Whether every entry has a name that is not empty and that the codec
/// judges safe.
pub open spec fn all_safe(entries: Seq<(Seq<char>, Seq<u8>)>) -> bool {
    forall|i: int| 0 <= i < entries.len() ==> !is_skipped_name(#[trigger] entries[i].0)
}

/// Where every entry has a safe name, none is dropped and the order is kept:
/// there are as many steps as entries, and each step is the one planned for
/// the entry at its position.
pub proof fn law_safe_entries_all_planned(dest: Seq<char>, entries: Seq<(Seq<char>, Seq<u8>)>)
    ensures
        all_safe(entries) ==> planned_steps(dest, entries).len() == entries.len(),
        all_safe(entries) ==> forall|i: int|
            0 <= i < entries.len() ==> Some(#[trigger] planned_steps(dest, entries)[i])
                == planned_step(dest, entries[i]),
    decreases entries.len(),
{
    if all_safe(entries) && entries.len() > 0 {
        let front = entries.drop_last();
        assert(all_safe(front)) by {
            assert forall|i: int| 0 <= i < front.len() implies !is_skipped_name(
                #[trigger] front[i].0,
            ) by {
                assert(front[i] == entries[i]);
            }
        }
        law_safe_entries_all_planned(dest, front);
        let last = entries.last();
        assert(!is_skipped_name(entries[entries.len() - 1].0));
        assert(planned_step(dest, last) is Some);
        let step = planned_step(dest, last)->Some_0;
        assert(planned_steps(dest, entries) == planned_steps(dest, front).push(step));
        assert forall|i: int| 0 <= i < entries.len() implies Some(
            #[trigger] planned_steps(dest, entries)[i],
        ) == planned_step(dest, entries[i]) by {
            if i < front.len() {
                assert(front[i] == entries[i]);
                assert(planned_steps(dest, entries)[i] == planned_steps(dest, front)[i]);
            }
        }
    }
}

/// Only an entry whose name is not skipped gets a step, and the step's path
/// is that name joined onto the destination root.
pub proof fn law_steps_only_for_safe_names(dest: Seq<char>, entry: (Seq<char>, Seq<u8>))
    ensures
        planned_step(dest, entry) is Some <==> !is_skipped_name(entry.0),
        planned_step(dest, entry) matches Some(StepView::MakeDir { path }) ==> path == joined_path(
            dest,
            entry.0,
        ),
        planned_step(dest, entry) matches Some(StepView::WriteFile { path, parent, content })
            ==> path == joined_path(dest, entry.0) && parent == parent_path(path) && content
            == entry.1,
{
}

/// Every directory below the source root is packed as a directory marker,
/// a name that ends in `/`, and the extractor restores a marker as a
/// directory, never as a file.
pub proof fn law_directory_survives(dest: Seq<char>, relative: Seq<char>, content: Seq<u8>)
    requires
        relative.len() > 0,
    ensures
        spec_entry_for(relative, false) == Some(PackEntryView::Directory { name: relative }),
        entry_record(PackEntryView::Directory { name: relative }, content) == (
            spec_marker_name(relative),
            Seq::<u8>::empty(),
        ),
        spec_is_directory_name(spec_marker_name(relative)),
        planned_step(dest, (spec_marker_name(relative), Seq::<u8>::empty())) matches Some(step)
            ==> step == (StepView::MakeDir {
            path: joined_path(dest, spec_marker_name(relative)),
        }),
        !is_skipped_name(spec_marker_name(relative)) ==> planned_step(
            dest,
            (spec_marker_name(relative), Seq::<u8>::empty()),
        ) is Some,
{
    let stored = spec_marker_name(relative);
    if !spec_is_directory_name(relative) {
        assert(stored == relative.push('/'));
        assert(stored.last() == '/');
    }
}

/// A file is packed under exactly its relative path with its content, and
/// the extractor restores such an entry as a file with the same content at
/// that path under the destination root. The relative path of a file below
/// the root is not empty and does not end in `/`.
pub proof fn law_file_survives(dest: Seq<char>, relative: Seq<char>, content: Seq<u8>)
    requires
        relative.len() > 0,
        !spec_is_directory_name(relative),
    ensures
        spec_entry_for(relative, true) == Some(PackEntryView::File { name: relative }),
        entry_record(PackEntryView::File { name: relative }, content) == (relative, content),
        !is_skipped_name(relative) ==> planned_step(dest, (relative, content)) == Some(
            StepView::WriteFile {
                path: joined_path(dest, relative),
                parent: parent_path(joined_path(dest, relative)),
                content,
            },
        ),
{
}

/// A source tree that holds nothing but its root, a directory whose path
/// relative to itself is empty, is packed into no entry, and the plan for an
/// archive without entries is to create the destination root and nothing
/// else.
pub proof fn law_empty_source(root: Seq<char>, dest: Seq<char>, node: SourceNode)
    ensures
        tree_records(root, Seq::<SourceNode>::empty()) == Seq::<(Seq<char>, Seq<u8>)>::empty(),
        extraction_plan(dest, Seq::<(Seq<char>, Seq<u8>)>::empty()) == seq![
            StepView::MakeDir { path: dest },
        ],
        !node.is_file && node.path_view() is Some && relative_to(node.path_view()->Some_0, root)
            == Some(Seq::<char>::empty()) ==> tree_records(root, seq![node]) == Seq::<
            (Seq<char>, Seq<u8>),
        >::empty(),
{
    let nodes = seq![node];
    assert(nodes.drop_last() == Seq::<SourceNode>::empty());
    assert(nodes.last() == node);
    assert(tree_records(root, nodes) == tree_records(root, nodes.drop_last()) + node_records(
        root,
        node,
    ));
    assert(seq![StepView::MakeDir { path: dest }] + Seq::<StepView>::empty() == seq![
        StepView::MakeDir { path: dest },
    ]);
    if !node.is_file && node.path_view() is Some && relative_to(node.path_view()->Some_0, root)
        == Some(Seq::<char>::empty()) {
        assert(node_records(root, node) == Seq::<(Seq<char>, Seq<u8>)>::empty());
        assert(tree_records(root, nodes.drop_last()) + node_records(root, node) == Seq::<
            (Seq<char>, Seq<u8>),
        >::empty());
    }
}

/// Packing a tree and planning the extraction of its records goes node by
/// node: the steps for a tree with one more node are the steps for the tree
/// followed by the steps for that node's records.
pub proof fn law_tree_steps_by_node(
    root: Seq<char>,
    dest: Seq<char>,
    nodes: Seq<SourceNode>,
    node: SourceNode,
)
    ensures
        planned_steps(dest, tree_records(root, nodes.push(node))) == planned_steps(
            dest,
            tree_records(root, nodes),
        ) + planned_steps(dest, node_records(root, node)),
{
    assert(nodes.push(node).drop_last() == nodes);
    assert(nodes.push(node).last() == node);
    law_entries_planned_independently(dest, tree_records(root, nodes), node_records(root, node));
}

} // verus!
