//! The layout of the scope and variable panel.
use vstd::prelude::*;
use vstd::string::StringExecFns;

verus! {

/// How scopes and variables are laid out.
#[derive(Debug, Clone, Copy, PartialEq, Eq, Structural)]
pub enum HierarchyStyle {
    /// Scopes and variables in two separate lists.
    Separate,
    /// Scopes and variables in one joint tree.
    Tree,
}

/// The style that a stored setting names: `"Tree"` is the tree, anything
/// else the separate lists.
pub open spec fn style_named(s: Seq<char>) -> HierarchyStyle {
    if s == "Tree"@ {
        HierarchyStyle::Tree
    } else {
        HierarchyStyle::Separate
    }
}

impl HierarchyStyle {
    /// The name under which the style is stored.
    pub fn name(&self) -> (r: String)
        ensures
            r@ == (match self {
                HierarchyStyle::Separate => "Separate"@,
                HierarchyStyle::Tree => "Tree"@,
            }),
    {
        match self {
            HierarchyStyle::Separate => String::from_str("Separate"),
            HierarchyStyle::Tree => String::from_str("Tree"),
        }
    }
}

impl From<String> for HierarchyStyle {
    fn from(string: String) -> (r: HierarchyStyle) {
        let tree = String::from_str("Tree");
        proof {
            reveal_strlit("Tree");
        }
        if string == tree {
            HierarchyStyle::Tree
        } else {
            HierarchyStyle::Separate
        }
    }
}

impl vstd::std_specs::convert::FromSpecImpl<String> for HierarchyStyle {
    open spec fn obeys_from_spec() -> bool {
        true
    }

    open spec fn from_spec(v: String) -> HierarchyStyle {
        style_named(v@)
    }
}

} // verus!
