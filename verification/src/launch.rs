//! What is done once, when the application has finished launching.

use vstd::prelude::*;

verus! {

/// How the application presents itself among the other applications of the
/// system.
#[derive(Clone, Copy, PartialEq, Eq, Structural, Debug)]
pub enum ActivationPolicy {
    /// An ordinary application, with an icon and a menu bar.
    Regular,
    /// An application without an icon or a menu bar, which may still show
    /// windows.
    Accessory,
    /// An application that shows nothing and cannot be activated.
    Prohibited,
}

/// The native work that is done once, when the application has launched and
/// before the first call to the handler.
#[derive(Clone, Copy, PartialEq, Eq, Structural, Debug)]
pub struct LaunchPlan {
    /// The activation policy to set.
    pub activation_policy: ActivationPolicy,
    /// Whether to activate the application even if another one is active.
    pub activate_ignoring_other_apps: bool,
    /// Whether to build the default menu.
    pub default_menu: bool,
}

/// The windows to bring to the front when the application has launched:
/// those that are visible, in the order in which they are listed. `visible`
/// holds, for each window of the application, whether it is visible.
pub open spec fn spec_windows_to_activate(visible: Seq<bool>) -> Seq<usize>
    decreases visible.len(),
{
    if visible.len() == 0 {
        Seq::empty()
    } else if visible.last() {
        spec_windows_to_activate(visible.drop_last()).push((visible.len() - 1) as usize)
    } else {
        spec_windows_to_activate(visible.drop_last())
    }
}

/// Picks the windows to bring to the front when the application has
/// launched, so that windows made before the launch come up as they would
/// have afterwards: the index of each visible window, in order. An invisible
/// window is left alone, which keeps the visibility the application chose.
pub fn window_activation_hack(visible: &Vec<bool>) -> (front: Vec<usize>)
    ensures
        front@ == spec_windows_to_activate(visible@),
{
    let mut front: Vec<usize> = Vec::new();
    let mut i: usize = 0;
    while i < visible.len()
        invariant
            i <= visible.len(),
            front@ == spec_windows_to_activate(visible@.take(i as int)),
        decreases visible.len() - i,
    {
        proof {
            assert(visible@.take(i + 1).drop_last() == visible@.take(i as int));
        }
        if visible[i] {
            front.push(i);
        }
        i = i + 1;
    }
    proof {
        assert(visible@.take(i as int) == visible@);
    }
    front
}

/// The windows that are brought to the front are exactly the visible ones,
/// each once and in the order in which they are listed. `visible` is a list
/// that fits in memory.
pub proof fn visible_windows_are_activated_in_order(visible: Seq<bool>)
    requires
        visible.len() <= usize::MAX,
    ensures
        forall|index: usize| #[trigger]
            spec_windows_to_activate(visible).contains(index) <==> index < visible.len() && visible[index as int],
        forall|i: int, j: int|
            0 <= i < j < spec_windows_to_activate(visible).len() ==> spec_windows_to_activate(visible)[i]
                < spec_windows_to_activate(visible)[j],
        spec_windows_to_activate(visible).len() <= visible.len(),
    decreases visible.len(),
{
    let front = spec_windows_to_activate(visible);
    if visible.len() > 0 {
        let rest = visible.drop_last();
        let earlier = spec_windows_to_activate(rest);
        let last = (visible.len() - 1) as usize;
        visible_windows_are_activated_in_order(rest);
        assert forall|index: usize| #[trigger]
            front.contains(index) <==> index < visible.len() && visible[index as int] by {
            assert(earlier.contains(index) <==> index < rest.len() && rest[index as int]);
            if visible.last() {
                assert(front == earlier.push(last));
                if earlier.contains(index) {
                    let k = choose|k: int| 0 <= k < earlier.len() && earlier[k] == index;
                    assert(front[k] == index);
                }
                if front.contains(index) {
                    let k = choose|k: int| 0 <= k < front.len() && front[k] == index;
                    if k < earlier.len() {
                        assert(earlier[k] == index);
                    }
                }
                assert(front[earlier.len() as int] == last);
            }
        }
        assert forall|i: int, j: int| 0 <= i < j < front.len() implies front[i] < front[j] by {
            if visible.last() && j == earlier.len() {
                assert(earlier.contains(earlier[i]));
            }
        }
    }
}

} // verus!
