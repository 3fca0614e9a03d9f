//! Air requests that wait for a decision of the SwMI.
use crate::mm::pdu::{
    AttachmentOperation, AttachmentResult, EnergyEconomyAssignment, GroupIdentityUplink,
    LocationUpdateType,
};
use vstd::prelude::*;

verus! {

/// A change to the groups of a terminal whose group is named.
#[derive(Debug, Clone, Copy, PartialEq, Eq, Structural)]
pub struct GroupOperation {
    pub gssi: u32,
    pub detachment: Option<u8>,
    pub class_of_usage: u8,
}

impl GroupOperation {
    /// The change as the SwMI is asked for it.
    #[verifier::allow_in_spec]
    pub fn asked(self) -> AttachmentOperation
        returns
            (AttachmentOperation {
                gssi: self.gssi,
                detach: match self.detachment {
                    Some(_) => true,
                    None => false,
                },
                class_of_usage: self.class_of_usage,
            }),
    {
        AttachmentOperation {
            gssi: self.gssi,
            detach: match self.detachment {
                Some(_) => true,
                None => false,
            },
            class_of_usage: self.class_of_usage,
        }
    }
}

/// The changes of a request, if it names every group.
pub open spec fn named(groups: Seq<GroupIdentityUplink>) -> Option<Seq<GroupOperation>> {
    if forall|i: int| 0 <= i < groups.len() ==> (#[trigger] groups[i]).gssi is Some {
        Some(
            groups.map_values(
                |group: GroupIdentityUplink|
                    GroupOperation {
                        gssi: group.gssi->0,
                        detachment: group.group_identity_detachment_uplink,
                        class_of_usage: group.class(),
                    },
            ),
        )
    } else {
        None
    }
}

/// The changes as the SwMI is asked for them.
pub open spec fn asked(operations: Seq<GroupOperation>) -> Seq<AttachmentOperation> {
    operations.map_values(|operation: GroupOperation| operation.asked())
}

/// The decision that the station takes alone: everything is accepted.
pub open spec fn all_accepted(operations: Seq<GroupOperation>) -> Seq<AttachmentResult> {
    operations.map_values(
        |operation: GroupOperation|
            AttachmentResult { operation: operation.asked(), accepted: true, cause: 0 },
    )
}

/// The changes of a request, if it names every group.
pub fn named_groups(groups: &Vec<GroupIdentityUplink>) -> (operations: Option<Vec<GroupOperation>>)
    ensures
        match operations {
            Some(list) => named(groups@) == Some(list@),
            None => named(groups@) is None,
        },
{
    let mut list: Vec<GroupOperation> = Vec::new();
    let mut i: usize = 0;
    while i < groups.len()
        invariant
            i <= groups@.len(),
            list@.len() == i,
            forall|j: int| 0 <= j < i ==> (#[trigger] groups@[j]).gssi is Some,
            forall|j: int|
                0 <= j < i ==> #[trigger] list@[j] == (GroupOperation {
                    gssi: groups@[j].gssi->0,
                    detachment: groups@[j].group_identity_detachment_uplink,
                    class_of_usage: groups@[j].class(),
                }),
        decreases groups@.len() - i,
    {
        let group: GroupIdentityUplink = groups[i];
        match group.gssi {
            Some(gssi) => {
                list.push(
                    GroupOperation {
                        gssi,
                        detachment: group.group_identity_detachment_uplink,
                        class_of_usage: group.class(),
                    },
                );
            },
            None => {
                assert(groups@[i as int].gssi is None);
                return None;
            },
        }
        i = i + 1;
    }
    assert(list@ =~= named(groups@)->0);
    Some(list)
}

/// The changes as the SwMI is asked for them.
pub fn asked_operations(operations: &Vec<GroupOperation>) -> (list: Vec<AttachmentOperation>)
    ensures
        list@ == asked(operations@),
{
    let mut list: Vec<AttachmentOperation> = Vec::new();
    let mut i: usize = 0;
    while i < operations.len()
        invariant
            i <= operations@.len(),
            list@ == asked(operations@).take(i as int),
        decreases operations@.len() - i,
    {
        list.push(operations[i].asked());
        i = i + 1;
        assert(list@ =~= asked(operations@).take(i as int));
    }
    assert(list@ =~= asked(operations@));
    list
}

/// The decision that the station takes alone: everything is accepted.
pub fn local_attachment_results(operations: &Vec<GroupOperation>) -> (list: Vec<AttachmentResult>)
    ensures
        list@ == all_accepted(operations@),
{
    let mut list: Vec<AttachmentResult> = Vec::new();
    let mut i: usize = 0;
    while i < operations.len()
        invariant
            i <= operations@.len(),
            list@ == all_accepted(operations@).take(i as int),
        decreases operations@.len() - i,
    {
        list.push(
            AttachmentResult { operation: operations[i].asked(), accepted: true, cause: 0 },
        );
        i = i + 1;
        assert(list@ =~= all_accepted(operations@).take(i as int));
    }
    assert(list@ =~= all_accepted(operations@));
    list
}

/// A change to groups that waits.
#[derive(Debug)]
pub struct PendingAttachment {
    pub itsi: u32,
    pub air_handle: u32,
    pub replace_all: bool,
    pub operations: Vec<GroupOperation>,
}

/// The model of a change to groups that waits.
#[verifier::ext_equal]
pub ghost struct AttachmentView {
    pub itsi: u32,
    pub air_handle: u32,
    pub replace_all: bool,
    pub operations: Seq<GroupOperation>,
}

impl View for PendingAttachment {
    type V = AttachmentView;

    open spec fn view(&self) -> AttachmentView {
        AttachmentView {
            itsi: self.itsi,
            air_handle: self.air_handle,
            replace_all: self.replace_all,
            operations: self.operations@,
        }
    }
}

/// A location update, besides its groups and its target.
#[derive(Debug, Clone, Copy, PartialEq, Eq, Structural)]
pub struct RegistrationHead {
    pub itsi: u32,
    pub air_handle: u32,
    pub location_update_type: LocationUpdateType,
    pub address_extension: Option<u64>,
    pub energy_saving_information: Option<EnergyEconomyAssignment>,
    pub has_group_identity_location_demand: bool,
    pub authentication_successful: bool,
}

/// A location update that waits.
#[derive(Debug)]
pub struct PendingRegistration {
    pub head: RegistrationHead,
    pub attachment: Option<PendingAttachment>,
    /// The cell that will serve the terminal, where this one merely carries the
    /// exchange.
    pub target: Option<String>,
}

/// The model of a location update that waits.
#[verifier::ext_equal]
pub ghost struct RegistrationView {
    pub head: RegistrationHead,
    pub attachment: Option<AttachmentView>,
    pub target: Option<String>,
}

/// The model of an optional change to groups.
pub open spec fn attachment_view(attachment: Option<PendingAttachment>) -> Option<AttachmentView> {
    match attachment {
        Some(pending) => Some(pending@),
        None => None,
    }
}

impl View for PendingRegistration {
    type V = RegistrationView;

    open spec fn view(&self) -> RegistrationView {
        RegistrationView {
            head: self.head,
            attachment: attachment_view(self.attachment),
            target: self.target,
        }
    }
}

/// A change to groups inside a location update that waits. Its result is part
/// of the response to the location update.
#[derive(Debug)]
pub struct PendingLocationAttachment {
    pub registration: RegistrationHead,
    pub attachment: PendingAttachment,
    pub rua_requested: bool,
}

/// The model of a change to groups inside a location update.
#[verifier::ext_equal]
pub ghost struct LocationAttachmentView {
    pub registration: RegistrationHead,
    pub attachment: AttachmentView,
    pub rua_requested: bool,
}

impl View for PendingLocationAttachment {
    type V = LocationAttachmentView;

    open spec fn view(&self) -> LocationAttachmentView {
        LocationAttachmentView {
            registration: self.registration,
            attachment: self.attachment@,
            rua_requested: self.rua_requested,
        }
    }
}

/// A change of the energy economy that waits.
#[derive(Debug, Clone, Copy, PartialEq, Eq, Structural)]
pub struct EnergyRequest {
    pub issi: u32,
    pub air_handle: u32,
}

} // verus!
