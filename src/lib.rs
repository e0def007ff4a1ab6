use vstd::prelude::*;

verus! {

/// The publication state of a post: exactly one of three states at a time.
#[derive(Debug, Clone, Copy, PartialEq, Eq, Structural)]
pub enum PostStatuses {
    Draft,
    Published,
    Removed,
}

/// The human-readable label of a status, as its variant's name.
pub open spec fn label_of(status: PostStatuses) -> Seq<char> {
    match status {
        PostStatuses::Draft => seq!['D', 'r', 'a', 'f', 't'],
        PostStatuses::Published => seq!['P', 'u', 'b', 'l', 'i', 's', 'h', 'e', 'd'],
        PostStatuses::Removed => seq!['R', 'e', 'm', 'o', 'v', 'e', 'd'],
    }
}

/// Returns the label under which a status is shown.
pub fn debug_label(status: PostStatuses) -> (r: &'static str)
    ensures
        r@ == label_of(status),
{
    match status {
        PostStatuses::Draft => {
            proof {
                reveal_strlit("Draft");
            }
            "Draft"
        },
        PostStatuses::Published => {
            proof {
                reveal_strlit("Published");
            }
            "Published"
        },
        PostStatuses::Removed => {
            proof {
                reveal_strlit("Removed");
            }
            "Removed"
        },
    }
}

/// Distinct statuses are shown under distinct labels, so a label names its status.
pub proof fn lemma_label_injective(a: PostStatuses, b: PostStatuses)
    ensures
        label_of(a) == label_of(b) <==> a == b,
{
    if a != b {
        assert(label_of(a)[0] != label_of(b)[0]);
    }
}

} // verus!
