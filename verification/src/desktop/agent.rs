//! What is known of the agent.

use vstd::prelude::*;

verus! {

/// How far the agent has come with its list of devices.
#[derive(Debug, Clone, Copy, PartialEq, Eq, Structural)]
pub enum InventoryHealth {
    /// It is still looking; the list that it reports is empty.
    Scanning,
    /// It has listed all devices.
    Ready,
}

/// What the agent says of itself.
#[derive(Debug)]
pub struct AgentStatus {
    pub inventory: InventoryHealth,
    /// Everything else that it says, as text.
    pub details: String,
}

/// An [`AgentStatus`] as a mathematical value.
pub ghost struct StatusModel {
    pub inventory: InventoryHealth,
    pub details: Seq<char>,
}

impl View for AgentStatus {
    type V = StatusModel;

    open spec fn view(&self) -> StatusModel {
        StatusModel { inventory: self.inventory, details: self.details@ }
    }
}

/// Where the connection to the agent stands.
#[derive(Debug)]
pub enum AgentLink {
    /// Nothing has been heard yet.
    Connecting,
    Ready(AgentStatus),
    /// The agent does not answer.
    Unreachable,
    /// The agent speaks a newer protocol than this program.
    OutdatedGui,
}

/// An [`AgentLink`] as a mathematical value.
pub ghost enum LinkModel {
    Connecting,
    Ready(StatusModel),
    Unreachable,
    OutdatedGui,
}

impl View for AgentLink {
    type V = LinkModel;

    open spec fn view(&self) -> LinkModel {
        match self {
            AgentLink::Connecting => LinkModel::Connecting,
            AgentLink::Ready(status) => LinkModel::Ready(status@),
            AgentLink::Unreachable => LinkModel::Unreachable,
            AgentLink::OutdatedGui => LinkModel::OutdatedGui,
        }
    }
}

impl AgentLink {
    /// Whether two links stand for the same.
    pub fn same(&self, other: &AgentLink) -> (same: bool)
        ensures
            same == (self@ == other@),
    {
        match (self, other) {
            (AgentLink::Connecting, AgentLink::Connecting) => true,
            (AgentLink::Ready(a), AgentLink::Ready(b)) => a.inventory == b.inventory && a.details
                == b.details,
            (AgentLink::Unreachable, AgentLink::Unreachable) => true,
            (AgentLink::OutdatedGui, AgentLink::OutdatedGui) => true,
            _ => false,
        }
    }
}

/// What is known of the agent, as the windows show it.
#[derive(Debug)]
pub struct AgentView {
    pub link: AgentLink,
    /// A camera is in use.
    pub camera_active: bool,
}

/// An [`AgentView`] as a mathematical value.
pub ghost struct AgentModel {
    pub link: LinkModel,
    pub camera_active: bool,
}

impl View for AgentView {
    type V = AgentModel;

    open spec fn view(&self) -> AgentModel {
        AgentModel { link: self.link@, camera_active: self.camera_active }
    }
}

/// What to redraw.
#[derive(Debug, Clone, Copy, PartialEq, Eq, Structural)]
pub struct RedrawPlan {
    pub refresh_windows: bool,
    pub rebuild_menu: bool,
}

/// What to redraw after a wipe of the stored images: the windows, where the
/// merge that follows it changed the list of devices. The menu stays as it is.
pub fn redraw_after_wipe(merged: bool) -> (plan: RedrawPlan)
    ensures
        plan == (RedrawPlan { refresh_windows: merged, rebuild_menu: false }),
{
    RedrawPlan { refresh_windows: merged, rebuild_menu: false }
}

impl AgentModel {
    /// What is known once the link is set.
    pub open spec fn linked(self, link: LinkModel) -> AgentModel {
        AgentModel { link, ..self }
    }

    /// The windows are redrawn when the link is set.
    pub open spec fn link_refreshes(self, link: LinkModel) -> bool {
        self.link != link
    }

    /// What is known once the agent has reported.
    pub open spec fn reported(self, status: StatusModel, camera_active: bool) -> AgentModel {
        AgentModel { link: LinkModel::Ready(status), camera_active }
    }

    /// A notice that repeats what is known redraws nothing and changes nothing.
    pub proof fn repeated_notice_refreshes_nothing(self, link: LinkModel)
        ensures
            self.linked(link).link == link,
            !self.linked(link).link_refreshes(link),
            self.linked(link).linked(link) == self.linked(link),
            self.linked(link).camera_active == self.camera_active,
    {
    }
}

impl AgentView {
    /// What is known before anything was heard.
    pub fn new() -> (view: AgentView)
        ensures
            view@ == (AgentModel { link: LinkModel::Connecting, camera_active: false }),
    {
        AgentView { link: AgentLink::Connecting, camera_active: false }
    }

    /// Sets the link. Says whether the windows are to be redrawn, which is so
    /// only where the link changed.
    pub fn set_agent_link(&mut self, link: AgentLink) -> (refresh: bool)
        ensures
            final(self).link == link,
            final(self)@ == old(self)@.linked(link@),
            refresh == old(self)@.link_refreshes(link@),
    {
        let changed: bool = !self.link.same(&link);
        self.link = link;
        changed
    }

    /// Sets whether a camera is in use. Says whether that changed.
    pub fn set_camera_active(&mut self, active: bool) -> (changed: bool)
        ensures
            final(self).link == old(self).link,
            final(self).camera_active == active,
            changed == (old(self).camera_active != active),
    {
        let changed: bool = self.camera_active != active;
        self.camera_active = active;
        changed
    }

    /// Takes an agent's report in. The link becomes ready and the mark of the
    /// cameras is set, whatever came of merging the reported devices. The
    /// windows are redrawn where anything changed, the menu where the list of
    /// devices did.
    pub fn on_report(
        &mut self,
        status: AgentStatus,
        camera_active: bool,
        merged: bool,
        pairing_changed: bool,
    ) -> (plan: RedrawPlan)
        ensures
            final(self).link == AgentLink::Ready(status),
            final(self).camera_active == camera_active,
            final(self)@ == old(self)@.reported(status@, camera_active),
            plan.refresh_windows == (merged || old(self)@.link_refreshes(LinkModel::Ready(status@))
                || old(self).camera_active != camera_active || pairing_changed),
            plan.rebuild_menu == merged,
    {
        let link_changed: bool = self.set_agent_link(AgentLink::Ready(status));
        let camera_changed: bool = self.set_camera_active(camera_active);
        RedrawPlan {
            refresh_windows: merged || link_changed || camera_changed || pairing_changed,
            rebuild_menu: merged,
        }
    }
}

} // verus!
