//! Choosing the adapter and the queue family that a surface is drawn with.

use crate::error::SetupError;
use vstd::prelude::*;

verus! {

/// What is known of one queue family of an adapter.
#[derive(Clone, Copy, Debug, PartialEq, Eq)]
pub struct QueueFamilyInfo {
    /// The identifier by which the device names the family.
    pub id: usize,
    /// Whether the family's queues accept graphics commands.
    pub supports_graphics: bool,
    /// Whether the surface can be presented to from this family.
    pub supported_by_surface: bool,
}

/// What is known of one adapter: its queue families, in the adapter's order.
#[derive(Debug, PartialEq, Eq)]
pub struct AdapterInfo {
    pub queue_families: Vec<QueueFamilyInfo>,
}

/// An adapter and one of its queue families, both by position.
#[derive(Clone, Copy, Debug, PartialEq, Eq)]
pub struct DeviceChoice {
    /// Position of the adapter among the adapters that were listed.
    pub adapter: usize,
    /// Position of the queue family among the adapter's families.
    pub family: usize,
    /// The identifier of that queue family.
    pub family_id: usize,
}

impl QueueFamilyInfo {
    /// A family can be drawn with if it supports graphics and the surface
    /// accepts it.
    pub open spec fn usable(self) -> bool {
        self.supports_graphics && self.supported_by_surface
    }

    /// Whether the family can be drawn with.
    pub fn is_usable(&self) -> (usable: bool)
        ensures
            usable == self.usable(),
    {
        self.supports_graphics && self.supported_by_surface
    }
}

/// `at` is the position of the first usable family of `families`.
pub open spec fn first_usable_family(families: Seq<QueueFamilyInfo>, at: int) -> bool {
    &&& 0 <= at < families.len()
    &&& families[at].usable()
    &&& forall|k: int| 0 <= k < at ==> !(#[trigger] families[k]).usable()
}

/// Some family of `families` is usable.
pub open spec fn has_usable_family(families: Seq<QueueFamilyInfo>) -> bool {
    exists|k: int| 0 <= k < families.len() && (#[trigger] families[k]).usable()
}

impl AdapterInfo {
    /// An adapter is graphical if one of its families is usable.
    pub open spec fn graphical(self) -> bool {
        has_usable_family(self.queue_families@)
    }
}

/// `at` is the position of the first graphical adapter of `adapters`.
pub open spec fn first_graphical_adapter(adapters: Seq<AdapterInfo>, at: int) -> bool {
    &&& 0 <= at < adapters.len()
    &&& adapters[at].graphical()
    &&& forall|k: int| 0 <= k < at ==> !(#[trigger] adapters[k]).graphical()
}

/// Some adapter of `adapters` is graphical.
pub open spec fn has_graphical_adapter(adapters: Seq<AdapterInfo>) -> bool {
    exists|k: int| 0 <= k < adapters.len() && (#[trigger] adapters[k]).graphical()
}

/// `choice` names the first graphical adapter and its first usable family.
pub open spec fn chosen(adapters: Seq<AdapterInfo>, choice: DeviceChoice) -> bool {
    &&& first_graphical_adapter(adapters, choice.adapter as int)
    &&& first_usable_family(
        adapters[choice.adapter as int].queue_families@,
        choice.family as int,
    )
    &&& choice.family_id == adapters[choice.adapter as int].queue_families@[choice.family as int].id
}

/// The position of the first usable queue family, if there is one.
pub fn find_graphics_family(families: &Vec<QueueFamilyInfo>) -> (found: Option<usize>)
    ensures
        match found {
            Some(at) => first_usable_family(families@, at as int),
            None => !has_usable_family(families@),
        },
{
    let mut at: usize = 0;
    while at < families.len()
        invariant
            at <= families.len(),
            forall|k: int| 0 <= k < at ==> !(#[trigger] families@[k]).usable(),
        decreases families.len() - at,
    {
        if families[at].is_usable() {
            return Some(at);
        }
        at += 1;
    }
    None
}

/// The position of the first adapter that has a usable queue family, if
/// there is one.
pub fn find_graphical_adapter(adapters: &Vec<AdapterInfo>) -> (found: Option<usize>)
    ensures
        match found {
            Some(at) => first_graphical_adapter(adapters@, at as int),
            None => !has_graphical_adapter(adapters@),
        },
{
    let mut at: usize = 0;
    while at < adapters.len()
        invariant
            at <= adapters.len(),
            forall|k: int| 0 <= k < at ==> !(#[trigger] adapters@[k]).graphical(),
        decreases adapters.len() - at,
    {
        if find_graphics_family(&adapters[at].queue_families).is_some() {
            return Some(at);
        }
        at += 1;
    }
    None
}

/// Chooses the device to draw with: the first adapter with a usable queue
/// family, and the first such family of that adapter.
///
/// Fails with `NoGraphicalAdapter` exactly when no adapter has a usable
/// family. An adapter that was found always has a family to take, so
/// `NoGraphicsQueueFamily` is never returned.
pub fn choose_device(adapters: &Vec<AdapterInfo>) -> (choice: Result<DeviceChoice, SetupError>)
    ensures
        choice is Ok <==> has_graphical_adapter(adapters@),
        match choice {
            Ok(c) => chosen(adapters@, c),
            Err(e) => e == SetupError::NoGraphicalAdapter
                && !has_graphical_adapter(adapters@),
        },
{
    let adapter = match find_graphical_adapter(adapters) {
        Some(at) => at,
        None => {
            return Err(SetupError::NoGraphicalAdapter);
        },
    };
    let families = &adapters[adapter].queue_families;
    let family = match find_graphics_family(families) {
        Some(at) => at,
        None => {
            return Err(SetupError::NoGraphicsQueueFamily);
        },
    };
    Ok(DeviceChoice { adapter, family, family_id: families[family].id })
}

/// Two positions that are both the first usable family are the same.
pub proof fn lemma_first_usable_family_unique(families: Seq<QueueFamilyInfo>, a: int, b: int)
    requires
        first_usable_family(families, a),
        first_usable_family(families, b),
    ensures
        a == b,
{
    if a < b {
        assert(!families[a].usable());
    } else if b < a {
        assert(!families[b].usable());
    }
}

/// Two choices for the same adapters are the same choice.
pub proof fn lemma_choice_unique(adapters: Seq<AdapterInfo>, a: DeviceChoice, b: DeviceChoice)
    requires
        chosen(adapters, a),
        chosen(adapters, b),
    ensures
        a == b,
{
    if a.adapter < b.adapter {
        assert(!adapters[a.adapter as int].graphical());
    } else if b.adapter < a.adapter {
        assert(!adapters[b.adapter as int].graphical());
    }
    lemma_first_usable_family_unique(
        adapters[a.adapter as int].queue_families@,
        a.family as int,
        b.family as int,
    );
}

} // verus!
