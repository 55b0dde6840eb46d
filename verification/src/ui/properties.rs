use vstd::prelude::*;

verus! {

/// The indentation of a hierarchy entry `depth` levels down: six spaces per
/// level.
pub open spec fn indent(depth: nat) -> Seq<char>
    decreases depth,
{
    if depth == 0 {
        Seq::empty()
    } else {
        indent((depth - 1) as nat) + "      "@
    }
}

/// An entry `depth` levels down is indented by exactly six spaces per level,
/// all spaces, and one level deeper adds six more: deeper entries are
/// strictly more indented.
pub proof fn lemma_indent(depth: nat)
    ensures
        indent(depth).len() == 6 * depth,
        forall|i: int| 0 <= i < indent(depth).len() ==> #[trigger] indent(depth)[i] == ' ',
        indent(depth + 1) == indent(depth) + seq![' ', ' ', ' ', ' ', ' ', ' '],
        forall|d: nat| d < depth ==> #[trigger] indent(d).len() < indent(depth).len(),
    decreases depth,
{
    reveal_strlit("      ");
    assert("      "@ =~= seq![' ', ' ', ' ', ' ', ' ', ' ']);
    if depth > 0 {
        lemma_indent((depth - 1) as nat);
        let prev = indent((depth - 1) as nat);
        assert forall|i: int| 0 <= i < indent(depth).len() implies #[trigger] indent(depth)[i] == ' ' by {
            if i < prev.len() {
                assert(indent(depth)[i] == prev[i]);
            }
        }
        assert forall|d: nat| d < depth implies #[trigger] indent(d).len() < indent(depth).len() by {
            if d < depth - 1 {
                assert(indent(d).len() < prev.len());
            }
        }
    }
}

/// The text of a hierarchy entry: the selected part is marked with an arrow,
/// the others with a bullet.
pub open spec fn node_label_spec(depth: nat, name: Seq<char>, is_selected: bool) -> Seq<char> {
    if is_selected {
        indent(depth) + " ▶ "@ + name
    } else {
        "  "@ + indent(depth) + " • "@ + name
    }
}

/// The side panel that shows and edits the selected part.
pub struct PropertiesPanel;

impl PropertiesPanel {
    /// The text of the hierarchy entry for part `name`, `depth` levels below
    /// a root.
    pub fn node_label(depth: usize, name: &str, is_selected: bool) -> (label: String)
        ensures
            label@ == node_label_spec(depth as nat, name@, is_selected),
    {
        let mut indentation = String::new();
        let mut i: usize = 0;
        while i < depth
            invariant
                i <= depth,
                indentation@ == indent(i as nat),
            decreases depth - i,
        {
            indentation.append("      ");
            i += 1;
        }
        if is_selected {
            let mut label = indentation;
            label.append(" ▶ ");
            label.append(name);
            label
        } else {
            let mut label = "  ".to_owned();
            label.append(indentation.as_str());
            label.append(" • ");
            label.append(name);
            label
        }
    }
}

} // verus!
