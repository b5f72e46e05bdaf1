//! The reactive core: the panel's state, the intents that are the only way
//! it changes, and the transition function that applies each intent —
//! optimistic mutation first, then a background effect whose completion
//! intent later confirms the value or rolls it back.

use vstd::prelude::*;

use crate::config::TailscaleConfig;
use crate::command::STATUS_CLEAR_TIME;
use crate::snapshot::TailscaleState;
use crate::text::str_eq;

verus! {

/// The panel's state: what one aggregation pass reported, plus the
/// selections, pending transfers, transient status texts, popup handle and
/// mirrored persisted preferences.
#[derive(Debug)]
pub struct UiState {
    pub popup: Option<u64>,
    pub ssh: bool,
    pub routes: bool,
    pub connect: bool,
    pub device_options: Vec<String>,
    pub selected_device: String,
    pub selected_device_idx: Option<usize>,
    pub send_files: Vec<String>,
    pub send_file_status: String,
    pub files_sent: bool,
    pub receive_file_status: String,
    pub avail_exit_nodes: Vec<String>,
    pub sel_exit_node: String,
    pub sel_exit_node_idx: Option<usize>,
    pub acct_list: Vec<String>,
    pub cur_acct: String,
    pub allow_lan: bool,
    pub is_exit_node: bool,
    pub ip: String,
    pub conn_status: bool,
    pub config: TailscaleConfig,
}

/// The mathematical content of the panel's state.
#[verifier::ext_equal]
pub struct UiView {
    pub popup: Option<u64>,
    pub ssh: bool,
    pub routes: bool,
    pub connect: bool,
    pub device_options: Seq<Seq<char>>,
    pub selected_device: Seq<char>,
    pub selected_device_idx: Option<usize>,
    pub send_files: Seq<Seq<char>>,
    pub send_file_status: Seq<char>,
    pub files_sent: bool,
    pub receive_file_status: Seq<char>,
    pub avail_exit_nodes: Seq<Seq<char>>,
    pub sel_exit_node: Seq<char>,
    pub sel_exit_node_idx: Option<usize>,
    pub acct_list: Seq<Seq<char>>,
    pub cur_acct: Seq<char>,
    pub allow_lan: bool,
    pub is_exit_node: bool,
    pub ip: Seq<char>,
    pub conn_status: bool,
    pub config: TailscaleConfig,
}

impl View for UiState {
    type V = UiView;

    open spec fn view(&self) -> UiView {
        UiView {
            popup: self.popup,
            ssh: self.ssh,
            routes: self.routes,
            connect: self.connect,
            device_options: self.device_options.deep_view(),
            selected_device: self.selected_device@,
            selected_device_idx: self.selected_device_idx,
            send_files: self.send_files.deep_view(),
            send_file_status: self.send_file_status@,
            files_sent: self.files_sent,
            receive_file_status: self.receive_file_status@,
            avail_exit_nodes: self.avail_exit_nodes.deep_view(),
            sel_exit_node: self.sel_exit_node@,
            sel_exit_node_idx: self.sel_exit_node_idx,
            acct_list: self.acct_list.deep_view(),
            cur_acct: self.cur_acct@,
            allow_lan: self.allow_lan,
            is_exit_node: self.is_exit_node,
            ip: self.ip@,
            conn_status: self.conn_status,
            config: self.config,
        }
    }
}

/// One intent: a user action, or the completion report of a background
/// operation. Intents are the only way the state changes.
#[derive(Debug)]
pub enum Message {
    TogglePopup,
    PopupOpened(u64),
    PopupClosed(u64),
    EnableSSH(bool),
    SshSet(bool, bool),
    AcceptRoutes(bool),
    RoutesSet(bool, bool),
    ConnectDisconnect(bool),
    ConnectionSet(bool, bool),
    SwitchAccount(usize),
    DeviceSelected(usize),
    ChooseFiles,
    FilesSelected(Vec<String>),
    SendFiles,
    FilesSent(Option<String>),
    FileChoosingCancelled,
    ReceiveFiles,
    FilesReceived(String),
    ExitNodeSelected(usize),
    ExitNodeSet(String, Option<usize>, usize, bool),
    AllowExitNodeLanAccess(bool),
    LanAccessSet(bool, bool),
    UpdateIsExitNode(bool),
    ExitNodeEnabled(bool, bool),
    ClearTailDropStatus,
    RefreshState,
    StateRefreshed(TailscaleState),
    RefreshFailed(String),
}

/// One background task the caller must run after a transition; its
/// completion is reported back as another intent.
#[derive(Debug, PartialEq)]
pub enum Effect {
    RefreshState,
    RunSetSsh(bool),
    RunSetRoutes(bool),
    RunConnect(bool),
    RunSwitchAccount(String),
    OpenFileChooser,
    RunSendFiles(Vec<String>, String),
    RunReceiveFiles,
    RunSetExitNode(String, String, Option<usize>, usize),
    RunEnableExitNode(bool),
    RunAllowLanAccess(bool),
    PersistExitNodeIdx(usize),
    PersistAllowLan(bool),
    PostClearStatus,
    ScheduleReceiveClear(u64),
    ScheduleSendClear(u64),
    CreatePopup,
    DestroyPopup(u64),
}

/// The mathematical content of an effect.
#[verifier::ext_equal]
pub enum EffectView {
    RefreshState,
    RunSetSsh(bool),
    RunSetRoutes(bool),
    RunConnect(bool),
    RunSwitchAccount(Seq<char>),
    OpenFileChooser,
    RunSendFiles(Seq<Seq<char>>, Seq<char>),
    RunReceiveFiles,
    RunSetExitNode(Seq<char>, Seq<char>, Option<usize>, usize),
    RunEnableExitNode(bool),
    RunAllowLanAccess(bool),
    PersistExitNodeIdx(usize),
    PersistAllowLan(bool),
    PostClearStatus,
    ScheduleReceiveClear(u64),
    ScheduleSendClear(u64),
    CreatePopup,
    DestroyPopup(u64),
}

impl View for Effect {
    type V = EffectView;

    open spec fn view(&self) -> EffectView {
        match self {
            Effect::RefreshState => EffectView::RefreshState,
            Effect::RunSetSsh(v) => EffectView::RunSetSsh(*v),
            Effect::RunSetRoutes(v) => EffectView::RunSetRoutes(*v),
            Effect::RunConnect(v) => EffectView::RunConnect(*v),
            Effect::RunSwitchAccount(a) => EffectView::RunSwitchAccount(a@),
            Effect::OpenFileChooser => EffectView::OpenFileChooser,
            Effect::RunSendFiles(fs, d) => EffectView::RunSendFiles(fs.deep_view(), d@),
            Effect::RunReceiveFiles => EffectView::RunReceiveFiles,
            Effect::RunSetExitNode(arg, prev_name, prev_idx, i) => EffectView::RunSetExitNode(
                arg@, prev_name@, *prev_idx, *i),
            Effect::RunEnableExitNode(v) => EffectView::RunEnableExitNode(*v),
            Effect::RunAllowLanAccess(v) => EffectView::RunAllowLanAccess(*v),
            Effect::PersistExitNodeIdx(i) => EffectView::PersistExitNodeIdx(*i),
            Effect::PersistAllowLan(v) => EffectView::PersistAllowLan(*v),
            Effect::PostClearStatus => EffectView::PostClearStatus,
            Effect::ScheduleReceiveClear(t) => EffectView::ScheduleReceiveClear(*t),
            Effect::ScheduleSendClear(t) => EffectView::ScheduleSendClear(*t),
            Effect::CreatePopup => EffectView::CreatePopup,
            Effect::DestroyPopup(p) => EffectView::DestroyPopup(*p),
        }
    }
}

/// The content of an optional effect.
pub open spec fn eff_view(e: Option<Effect>) -> Option<EffectView> {
    match e {
        Option::Some(x) => Option::Some(x@),
        Option::None => Option::None,
    }
}

/// Whether the exit-node selection rests at its placeholder (or nothing is
/// selected at all): only then may the host's own exit-node role change.
pub open spec fn sel_at_placeholder(idx: Option<usize>) -> bool {
    match idx {
        Option::Some(i) => i == 0,
        Option::None => true,
    }
}

/// A selection index revalidated against a refreshed list: a stale index
/// resets to the placeholder, a valid or absent one is kept.
pub open spec fn reval_idx(idx: Option<usize>, len: int) -> Option<usize> {
    match idx {
        Option::Some(i) => if i < len {
            idx
        } else {
            Option::Some(0usize)
        },
        Option::None => Option::None,
    }
}

/// The selection name accompanying a revalidated index: reset to the
/// list's first entry exactly when the index was stale.
pub open spec fn reval_name(idx: Option<usize>, list: Seq<Seq<char>>, name: Seq<char>)
    -> Seq<char> {
    match idx {
        Option::Some(i) => if i < list.len() {
            name
        } else if list.len() > 0 {
            list[0]
        } else {
            name
        },
        Option::None => name,
    }
}

/// The status text a finished send batch shows: the reported error, or the
/// success banner.
pub open spec fn send_status_text(st: Option<String>) -> Seq<char> {
    match st {
        Option::Some(e) => e@,
        Option::None => "Files sent successfully!"@,
    }
}

/// The state after one intent: the transition function of the reactive
/// core.
pub open spec fn step(s: UiView, m: Message) -> UiView {
    match m {
        Message::TogglePopup => if s.popup is Some {
            UiView { popup: Option::None, receive_file_status: Seq::<char>::empty(), ..s }
        } else {
            s
        },
        Message::PopupOpened(id) => UiView { popup: Option::Some(id), ..s },
        Message::PopupClosed(id) => if s.popup == Option::Some(id) {
            UiView { popup: Option::None, ..s }
        } else {
            s
        },
        Message::EnableSSH(v) => UiView { ssh: v, ..s },
        Message::SshSet(v, ok) => if ok {
            s
        } else {
            UiView { ssh: !v, ..s }
        },
        Message::AcceptRoutes(v) => UiView { routes: v, ..s },
        Message::RoutesSet(v, ok) => if ok {
            s
        } else {
            UiView { routes: !v, ..s }
        },
        Message::ConnectDisconnect(v) => UiView { connect: v, conn_status: v, ..s },
        Message::ConnectionSet(v, ok) => if ok {
            s
        } else {
            UiView { connect: !v, conn_status: !v, ..s }
        },
        Message::SwitchAccount(i) => if (i as int) < s.acct_list.len() {
            UiView { cur_acct: s.acct_list[i as int], ..s }
        } else {
            s
        },
        Message::DeviceSelected(i) => if (i as int) < s.device_options.len() {
            UiView {
                selected_device: s.device_options[i as int],
                selected_device_idx: Option::Some(i),
                files_sent: false,
                ..s
            }
        } else {
            s
        },
        Message::ChooseFiles => s,
        Message::FilesSelected(paths) => UiView {
            send_files: s.send_files + paths.deep_view(),
            files_sent: false,
            ..s
        },
        Message::SendFiles => if s.selected_device != "Select"@ {
            UiView { files_sent: true, ..s }
        } else {
            s
        },
        Message::FilesSent(st) => if send_status_text(st).len() > 0 {
            UiView {
                send_file_status: send_status_text(st),
                send_files: Seq::<Seq<char>>::empty(),
                ..s
            }
        } else {
            UiView { send_file_status: send_status_text(st), ..s }
        },
        Message::FileChoosingCancelled => s,
        Message::ReceiveFiles => s,
        Message::FilesReceived(st) => UiView { receive_file_status: st@, ..s },
        Message::ExitNodeSelected(i) => if !s.is_exit_node && (i as int)
            < s.avail_exit_nodes.len() {
            UiView {
                sel_exit_node: s.avail_exit_nodes[i as int],
                sel_exit_node_idx: Option::Some(i),
                ..s
            }
        } else {
            s
        },
        Message::ExitNodeSet(prev_name, prev_idx, idx, ok) => if ok {
            UiView { config: TailscaleConfig { exit_node_idx: idx, ..s.config }, ..s }
        } else {
            UiView { sel_exit_node: prev_name@, sel_exit_node_idx: prev_idx, ..s }
        },
        Message::AllowExitNodeLanAccess(v) => UiView { allow_lan: v, ..s },
        Message::LanAccessSet(v, ok) => if ok {
            UiView { config: TailscaleConfig { allow_lan: v, ..s.config }, ..s }
        } else {
            UiView { allow_lan: !v, ..s }
        },
        Message::UpdateIsExitNode(v) => if sel_at_placeholder(s.sel_exit_node_idx) {
            UiView { is_exit_node: v, ..s }
        } else {
            s
        },
        Message::ExitNodeEnabled(v, ok) => if ok {
            s
        } else {
            UiView { is_exit_node: !v, ..s }
        },
        Message::ClearTailDropStatus => if s.receive_file_status.len() > 0 {
            s
        } else if s.send_file_status.len() > 0 || s.files_sent {
            UiView {
                selected_device_idx: Option::Some(0usize),
                selected_device: if s.device_options.len() > 0 {
                    s.device_options[0]
                } else {
                    s.selected_device
                },
                ..s
            }
        } else {
            s
        },
        Message::RefreshState => s,
        Message::StateRefreshed(st) => UiView {
            ip: st.ip@,
            conn_status: st.connected,
            connect: st.connected,
            ssh: st.ssh_enabled,
            routes: st.routes_enabled,
            is_exit_node: st.is_exit_node,
            device_options: st.devices.deep_view(),
            avail_exit_nodes: st.exit_nodes.deep_view(),
            acct_list: st.acct_list.deep_view(),
            cur_acct: st.current_acct@,
            selected_device_idx: reval_idx(s.selected_device_idx, st.devices.deep_view().len()
                as int),
            selected_device: reval_name(s.selected_device_idx, st.devices.deep_view(),
                s.selected_device),
            sel_exit_node_idx: reval_idx(s.sel_exit_node_idx, st.exit_nodes.deep_view().len()
                as int),
            sel_exit_node: reval_name(s.sel_exit_node_idx, st.exit_nodes.deep_view(),
                s.sel_exit_node),
            ..s
        },
        Message::RefreshFailed(_e) => s,
    }
}

/// The background task one intent schedules, if any: the effect half of
/// the transition function.
pub open spec fn emit(s: UiView, m: Message) -> Option<EffectView> {
    match m {
        Message::TogglePopup => match s.popup {
            Option::Some(p) => Option::Some(EffectView::DestroyPopup(p)),
            Option::None => Option::Some(EffectView::CreatePopup),
        },
        Message::PopupOpened(_id) => Option::None,
        Message::PopupClosed(_id) => Option::None,
        Message::EnableSSH(v) => Option::Some(EffectView::RunSetSsh(v)),
        Message::SshSet(_v, _ok) => Option::None,
        Message::AcceptRoutes(v) => Option::Some(EffectView::RunSetRoutes(v)),
        Message::RoutesSet(_v, _ok) => Option::None,
        Message::ConnectDisconnect(v) => Option::Some(EffectView::RunConnect(v)),
        Message::ConnectionSet(_v, _ok) => Option::None,
        Message::SwitchAccount(i) => if (i as int) < s.acct_list.len() {
            Option::Some(EffectView::RunSwitchAccount(s.acct_list[i as int]))
        } else {
            Option::None
        },
        Message::DeviceSelected(_i) => Option::None,
        Message::ChooseFiles => Option::Some(EffectView::OpenFileChooser),
        Message::FilesSelected(_paths) => Option::Some(EffectView::CreatePopup),
        Message::SendFiles => if s.selected_device != "Select"@ {
            Option::Some(EffectView::RunSendFiles(s.send_files, s.selected_device))
        } else {
            Option::None
        },
        Message::FilesSent(st) => if send_status_text(st).len() > 0 {
            Option::Some(EffectView::PostClearStatus)
        } else {
            Option::None
        },
        Message::FileChoosingCancelled => Option::Some(EffectView::CreatePopup),
        Message::ReceiveFiles => Option::Some(EffectView::RunReceiveFiles),
        Message::FilesReceived(st) => if st@.len() > 0 {
            Option::Some(EffectView::PostClearStatus)
        } else {
            Option::None
        },
        Message::ExitNodeSelected(i) => if !s.is_exit_node && (i as int)
            < s.avail_exit_nodes.len() {
            Option::Some(EffectView::RunSetExitNode(
                if i == 0 {
                    Seq::<char>::empty()
                } else {
                    s.avail_exit_nodes[i as int]
                },
                s.sel_exit_node,
                s.sel_exit_node_idx,
                i,
            ))
        } else {
            Option::None
        },
        Message::ExitNodeSet(_prev_name, _prev_idx, idx, ok) => if ok {
            Option::Some(EffectView::PersistExitNodeIdx(idx))
        } else {
            Option::None
        },
        Message::AllowExitNodeLanAccess(v) => if s.is_exit_node {
            Option::Some(EffectView::RunAllowLanAccess(v))
        } else {
            Option::None
        },
        Message::LanAccessSet(v, ok) => if ok {
            Option::Some(EffectView::PersistAllowLan(v))
        } else {
            Option::None
        },
        Message::UpdateIsExitNode(v) => if sel_at_placeholder(s.sel_exit_node_idx) {
            Option::Some(EffectView::RunEnableExitNode(v))
        } else {
            Option::None
        },
        Message::ExitNodeEnabled(_v, ok) => if ok {
            Option::Some(EffectView::RefreshState)
        } else {
            Option::None
        },
        Message::ClearTailDropStatus => if s.receive_file_status.len() > 0 {
            Option::Some(EffectView::ScheduleReceiveClear(STATUS_CLEAR_TIME))
        } else if s.send_file_status.len() > 0 || s.files_sent {
            Option::Some(EffectView::ScheduleSendClear(STATUS_CLEAR_TIME))
        } else {
            Option::None
        },
        Message::RefreshState => Option::Some(EffectView::RefreshState),
        Message::StateRefreshed(_st) => Option::None,
        Message::RefreshFailed(_e) => Option::None,
    }
}

/// Clone a list of strings, entry for entry.
fn clone_string_vec(v: &Vec<String>) -> (r: Vec<String>)
    ensures
        r@ == v@,
{
    let mut r: Vec<String> = Vec::new();
    let n = v.len();
    let mut i: usize = 0;
    while i < n
        invariant
            n == v@.len(),
            0 <= i <= n,
            r@ == v@.take(i as int),
        decreases n - i,
    {
        r.push(v[i].clone());
        proof {
            assert(r@ =~= v@.take(i + 1));
        }
        i = i + 1;
    }
    proof {
        assert(v@.take(n as int) =~= v@);
    }
    r
}

impl UiState {
    /// The initial panel state for a loaded configuration, before the
    /// first aggregation pass has reported.
    pub fn init_state(config: TailscaleConfig) -> (s: UiState)
        ensures
            s@ == init_view(config),
    {
        let mut device_options: Vec<String> = Vec::new();
        device_options.push(String::from_str("Select"));
        let mut avail_exit_nodes: Vec<String> = Vec::new();
        avail_exit_nodes.push(String::from_str("None"));
        let sel_exit_node_idx = if config.exit_node_idx > 0 {
            Option::Some(config.exit_node_idx)
        } else {
            Option::None
        };
        let s = UiState {
            popup: Option::None,
            ssh: false,
            routes: false,
            connect: false,
            device_options,
            selected_device: String::from_str("Select Exit Node"),
            selected_device_idx: Option::Some(0),
            send_files: Vec::new(),
            send_file_status: String::new(),
            files_sent: false,
            receive_file_status: String::new(),
            avail_exit_nodes,
            sel_exit_node: String::from_str("Select Exit Node"),
            sel_exit_node_idx,
            acct_list: Vec::new(),
            cur_acct: String::new(),
            allow_lan: config.allow_lan,
            is_exit_node: false,
            ip: String::from_str("loading"),
            conn_status: false,
            config,
        };
        proof {
            assert(s.device_options.deep_view() =~= seq!["Select"@]);
            assert(s.avail_exit_nodes.deep_view() =~= seq!["None"@]);
            assert(s.send_files.deep_view() =~= Seq::<Seq<char>>::empty());
            assert(s.acct_list.deep_view() =~= Seq::<Seq<char>>::empty());
            assert(s@ =~= init_view(config));
        }
        s
    }

    /// Popup toggle: destroy the open popup (clearing transient inbound
    /// status), or ask for a new one.
    fn on_toggle_popup(&mut self) -> (eff: Option<Effect>)
        ensures
            final(self)@ == step(old(self)@, Message::TogglePopup),
            eff_view(eff) == emit(old(self)@, Message::TogglePopup),
    {
        match self.popup {
            Option::Some(p) => {
                self.receive_file_status = String::new();
                self.popup = Option::None;
                proof {
                    assert(self@ =~= step(old(self)@, Message::TogglePopup));
                }
                Option::Some(Effect::DestroyPopup(p))
            },
            Option::None => {
                proof {
                    assert(self@ =~= step(old(self)@, Message::TogglePopup));
                }
                Option::Some(Effect::CreatePopup)
            },
        }
    }

    /// A popup was created: record its handle.
    fn on_popup_opened(&mut self, id: u64) -> (eff: Option<Effect>)
        ensures
            final(self)@ == step(old(self)@, Message::PopupOpened(id)),
            eff_view(eff) == emit(old(self)@, Message::PopupOpened(id)),
    {
        self.popup = Option::Some(id);
        proof {
            assert(self@ =~= step(old(self)@, Message::PopupOpened(id)));
        }
        Option::None
    }

    /// A window closed: forget the handle only if it is the one recorded,
    /// guarding against stale-close races.
    fn on_popup_closed(&mut self, id: u64) -> (eff: Option<Effect>)
        ensures
            final(self)@ == step(old(self)@, Message::PopupClosed(id)),
            eff_view(eff) == emit(old(self)@, Message::PopupClosed(id)),
    {
        match self.popup {
            Option::Some(p) => {
                if p == id {
                    self.popup = Option::None;
                }
            },
            Option::None => {},
        }
        proof {
            assert(self@ =~= step(old(self)@, Message::PopupClosed(id)));
        }
        Option::None
    }

    /// SSH toggle: optimistic update, then the confirming operation.
    fn on_enable_ssh(&mut self, v: bool) -> (eff: Option<Effect>)
        ensures
            final(self)@ == step(old(self)@, Message::EnableSSH(v)),
            eff_view(eff) == emit(old(self)@, Message::EnableSSH(v)),
    {
        self.ssh = v;
        proof {
            assert(self@ =~= step(old(self)@, Message::EnableSSH(v)));
        }
        Option::Some(Effect::RunSetSsh(v))
    }

    /// SSH confirmation: on failure, roll the optimistic value back.
    fn on_ssh_set(&mut self, v: bool, ok: bool) -> (eff: Option<Effect>)
        ensures
            final(self)@ == step(old(self)@, Message::SshSet(v, ok)),
            eff_view(eff) == emit(old(self)@, Message::SshSet(v, ok)),
    {
        if !ok {
            self.ssh = !v;
        }
        proof {
            assert(self@ =~= step(old(self)@, Message::SshSet(v, ok)));
        }
        Option::None
    }

    /// Route-acceptance toggle: optimistic update, then confirmation.
    fn on_accept_routes(&mut self, v: bool) -> (eff: Option<Effect>)
        ensures
            final(self)@ == step(old(self)@, Message::AcceptRoutes(v)),
            eff_view(eff) == emit(old(self)@, Message::AcceptRoutes(v)),
    {
        self.routes = v;
        proof {
            assert(self@ =~= step(old(self)@, Message::AcceptRoutes(v)));
        }
        Option::Some(Effect::RunSetRoutes(v))
    }

    /// Route-acceptance confirmation: on failure, roll back.
    fn on_routes_set(&mut self, v: bool, ok: bool) -> (eff: Option<Effect>)
        ensures
            final(self)@ == step(old(self)@, Message::RoutesSet(v, ok)),
            eff_view(eff) == emit(old(self)@, Message::RoutesSet(v, ok)),
    {
        if !ok {
            self.routes = !v;
        }
        proof {
            assert(self@ =~= step(old(self)@, Message::RoutesSet(v, ok)));
        }
        Option::None
    }

    /// Connectivity toggle: optimistic update, then confirmation.
    fn on_connect_disconnect(&mut self, v: bool) -> (eff: Option<Effect>)
        ensures
            final(self)@ == step(old(self)@, Message::ConnectDisconnect(v)),
            eff_view(eff) == emit(old(self)@, Message::ConnectDisconnect(v)),
    {
        self.connect = v;
        self.conn_status = v;
        proof {
            assert(self@ =~= step(old(self)@, Message::ConnectDisconnect(v)));
        }
        Option::Some(Effect::RunConnect(v))
    }

    /// Connectivity confirmation: on failure, roll back.
    fn on_connection_set(&mut self, v: bool, ok: bool) -> (eff: Option<Effect>)
        ensures
            final(self)@ == step(old(self)@, Message::ConnectionSet(v, ok)),
            eff_view(eff) == emit(old(self)@, Message::ConnectionSet(v, ok)),
    {
        if !ok {
            self.connect = !v;
            self.conn_status = !v;
        }
        proof {
            assert(self@ =~= step(old(self)@, Message::ConnectionSet(v, ok)));
        }
        Option::None
    }

    /// Account switch: optimistic current-account display, then the switch
    /// operation, whose completion triggers a full re-aggregation.
    fn on_switch_account(&mut self, i: usize) -> (eff: Option<Effect>)
        ensures
            final(self)@ == step(old(self)@, Message::SwitchAccount(i)),
            eff_view(eff) == emit(old(self)@, Message::SwitchAccount(i)),
    {
        if i < self.acct_list.len() {
            let acct = self.acct_list[i].clone();
            self.cur_acct = self.acct_list[i].clone();
            proof {
                assert(self@ =~= step(old(self)@, Message::SwitchAccount(i)));
            }
            Option::Some(Effect::RunSwitchAccount(acct))
        } else {
            proof {
                assert(self@ =~= step(old(self)@, Message::SwitchAccount(i)));
            }
            Option::None
        }
    }

    /// Device selection: record a valid index and its name.
    fn on_device_selected(&mut self, i: usize) -> (eff: Option<Effect>)
        ensures
            final(self)@ == step(old(self)@, Message::DeviceSelected(i)),
            eff_view(eff) == emit(old(self)@, Message::DeviceSelected(i)),
    {
        if i < self.device_options.len() {
            self.selected_device = self.device_options[i].clone();
            self.selected_device_idx = Option::Some(i);
            self.files_sent = false;
        }
        proof {
            assert(self@ =~= step(old(self)@, Message::DeviceSelected(i)));
        }
        Option::None
    }

    /// Chosen files arrive from the picker, already checked to exist:
    /// queue them and reopen the popup.
    fn on_files_selected(&mut self, paths: Vec<String>) -> (eff: Option<Effect>)
        ensures
            final(self)@ == step(old(self)@, Message::FilesSelected(paths)),
            eff_view(eff) == emit(old(self)@, Message::FilesSelected(paths)),
    {
        let ghost old_dv = self.send_files.deep_view();
        let ghost old_vv = self.send_files@;
        let ghost paths_dv = paths.deep_view();
        let mut p = paths;
        self.send_files.append(&mut p);
        self.files_sent = false;
        proof {
            assert forall|j: int| 0 <= j < self.send_files@.len() implies
                self.send_files.deep_view()[j] == (old_dv + paths_dv)[j] by {
                if j < old_vv.len() {
                    assert(self.send_files@[j] == old_vv[j]);
                }
            }
            assert(self.send_files.deep_view() =~= old_dv + paths_dv);
            assert(self@ =~= step(old(self)@, Message::FilesSelected(paths)));
        }
        Option::Some(Effect::CreatePopup)
    }

    /// Send request: only with a real device selected; the batch runs in
    /// the background.
    fn on_send_files(&mut self) -> (eff: Option<Effect>)
        ensures
            final(self)@ == step(old(self)@, Message::SendFiles),
            eff_view(eff) == emit(old(self)@, Message::SendFiles),
    {
        if !str_eq(self.selected_device.as_str(), "Select") {
            self.files_sent = true;
            let files = clone_string_vec(&self.send_files);
            let dev = self.selected_device.clone();
            proof {
                assert(files.deep_view() =~= self.send_files.deep_view());
                assert(self@ =~= step(old(self)@, Message::SendFiles));
            }
            Option::Some(Effect::RunSendFiles(files, dev))
        } else {
            proof {
                assert(self@ =~= step(old(self)@, Message::SendFiles));
            }
            Option::None
        }
    }

    /// A send batch finished: show its status and start the clear cycle.
    fn on_files_sent(&mut self, st: Option<String>) -> (eff: Option<Effect>)
        ensures
            final(self)@ == step(old(self)@, Message::FilesSent(st)),
            eff_view(eff) == emit(old(self)@, Message::FilesSent(st)),
    {
        proof {
            reveal_strlit("Files sent successfully!");
        }
        let nonempty: bool;
        match st {
            Option::Some(e) => {
                nonempty = !e.as_str().is_empty();
                self.send_file_status = e;
            },
            Option::None => {
                nonempty = true;
                self.send_file_status = String::from_str("Files sent successfully!");
            },
        }
        if nonempty {
            self.send_files = Vec::new();
            proof {
                assert(self.send_files.deep_view() =~= Seq::<Seq<char>>::empty());
                assert(self@ =~= step(old(self)@, Message::FilesSent(st)));
            }
            Option::Some(Effect::PostClearStatus)
        } else {
            proof {
                assert(self@ =~= step(old(self)@, Message::FilesSent(st)));
            }
            Option::None
        }
    }

    /// A receive attempt finished: show its status and start the clear
    /// cycle.
    fn on_files_received(&mut self, st: String) -> (eff: Option<Effect>)
        ensures
            final(self)@ == step(old(self)@, Message::FilesReceived(st)),
            eff_view(eff) == emit(old(self)@, Message::FilesReceived(st)),
    {
        let nonempty = !st.as_str().is_empty();
        self.receive_file_status = st;
        proof {
            assert(self@ =~= step(old(self)@, Message::FilesReceived(st)));
        }
        if nonempty {
            Option::Some(Effect::PostClearStatus)
        } else {
            Option::None
        }
    }

    /// Exit-node selection: honored only while this host is not itself the
    /// exit node; index 0 clears the backend selection. The effect carries
    /// the pre-toggle selection so that a failed confirmation can revert it.
    fn on_exit_node_selected(&mut self, i: usize) -> (eff: Option<Effect>)
        ensures
            final(self)@ == step(old(self)@, Message::ExitNodeSelected(i)),
            eff_view(eff) == emit(old(self)@, Message::ExitNodeSelected(i)),
    {
        if !self.is_exit_node && i < self.avail_exit_nodes.len() {
            let prev_name = self.sel_exit_node.clone();
            let prev_idx = self.sel_exit_node_idx;
            self.sel_exit_node = self.avail_exit_nodes[i].clone();
            self.sel_exit_node_idx = Option::Some(i);
            let arg = if i == 0 {
                String::new()
            } else {
                self.avail_exit_nodes[i].clone()
            };
            proof {
                assert(self@ =~= step(old(self)@, Message::ExitNodeSelected(i)));
            }
            Option::Some(Effect::RunSetExitNode(arg, prev_name, prev_idx, i))
        } else {
            proof {
                assert(self@ =~= step(old(self)@, Message::ExitNodeSelected(i)));
            }
            Option::None
        }
    }

    /// Exit-node selection confirmed: persist the index on success; on
    /// failure, revert the selection to its pre-toggle value.
    fn on_exit_node_set(
        &mut self,
        prev_name: String,
        prev_idx: Option<usize>,
        idx: usize,
        ok: bool,
    ) -> (eff: Option<Effect>)
        ensures
            final(self)@ == step(old(self)@, Message::ExitNodeSet(prev_name, prev_idx, idx, ok)),
            eff_view(eff) == emit(old(self)@, Message::ExitNodeSet(prev_name, prev_idx, idx,
                ok)),
    {
        if ok {
            self.config.exit_node_idx = idx;
            proof {
                assert(self@ =~= step(old(self)@, Message::ExitNodeSet(prev_name, prev_idx, idx,
                    ok)));
            }
            Option::Some(Effect::PersistExitNodeIdx(idx))
        } else {
            let ghost prev0 = prev_name;
            self.sel_exit_node = prev_name;
            self.sel_exit_node_idx = prev_idx;
            proof {
                assert(self@ =~= step(old(self)@, Message::ExitNodeSet(prev0, prev_idx, idx,
                    ok)));
            }
            Option::None
        }
    }

    /// LAN-access toggle: the backend call only happens while the host is
    /// an exit node; otherwise the local value changes alone.
    fn on_allow_lan_access(&mut self, v: bool) -> (eff: Option<Effect>)
        ensures
            final(self)@ == step(old(self)@, Message::AllowExitNodeLanAccess(v)),
            eff_view(eff) == emit(old(self)@, Message::AllowExitNodeLanAccess(v)),
    {
        self.allow_lan = v;
        proof {
            assert(self@ =~= step(old(self)@, Message::AllowExitNodeLanAccess(v)));
        }
        if self.is_exit_node {
            Option::Some(Effect::RunAllowLanAccess(v))
        } else {
            Option::None
        }
    }

    /// LAN-access confirmation: persist on success, roll back on failure.
    fn on_lan_access_set(&mut self, v: bool, ok: bool) -> (eff: Option<Effect>)
        ensures
            final(self)@ == step(old(self)@, Message::LanAccessSet(v, ok)),
            eff_view(eff) == emit(old(self)@, Message::LanAccessSet(v, ok)),
    {
        if ok {
            self.config.allow_lan = v;
            proof {
                assert(self@ =~= step(old(self)@, Message::LanAccessSet(v, ok)));
            }
            Option::Some(Effect::PersistAllowLan(v))
        } else {
            self.allow_lan = !v;
            proof {
                assert(self@ =~= step(old(self)@, Message::LanAccessSet(v, ok)));
            }
            Option::None
        }
    }

    /// Exit-node role toggle: honored only while the selection rests at
    /// its placeholder, the two roles being mutually exclusive.
    fn on_update_is_exit_node(&mut self, v: bool) -> (eff: Option<Effect>)
        ensures
            final(self)@ == step(old(self)@, Message::UpdateIsExitNode(v)),
            eff_view(eff) == emit(old(self)@, Message::UpdateIsExitNode(v)),
    {
        let at_placeholder = match self.sel_exit_node_idx {
            Option::Some(i) => i == 0,
            Option::None => true,
        };
        if at_placeholder {
            self.is_exit_node = v;
            proof {
                assert(self@ =~= step(old(self)@, Message::UpdateIsExitNode(v)));
            }
            Option::Some(Effect::RunEnableExitNode(v))
        } else {
            proof {
                assert(self@ =~= step(old(self)@, Message::UpdateIsExitNode(v)));
            }
            Option::None
        }
    }

    /// Exit-node role confirmed: a success invalidates most fields, so
    /// re-aggregate; a failure rolls the role back.
    fn on_exit_node_enabled(&mut self, v: bool, ok: bool) -> (eff: Option<Effect>)
        ensures
            final(self)@ == step(old(self)@, Message::ExitNodeEnabled(v, ok)),
            eff_view(eff) == emit(old(self)@, Message::ExitNodeEnabled(v, ok)),
    {
        if ok {
            proof {
                assert(self@ =~= step(old(self)@, Message::ExitNodeEnabled(v, ok)));
            }
            Option::Some(Effect::RefreshState)
        } else {
            self.is_exit_node = !v;
            proof {
                assert(self@ =~= step(old(self)@, Message::ExitNodeEnabled(v, ok)));
            }
            Option::None
        }
    }

    /// Start the timed clear of whichever transfer status is showing; for
    /// an outbound status the device selection resets to its placeholder.
    fn on_clear_tail_drop_status(&mut self) -> (eff: Option<Effect>)
        ensures
            final(self)@ == step(old(self)@, Message::ClearTailDropStatus),
            eff_view(eff) == emit(old(self)@, Message::ClearTailDropStatus),
    {
        if !self.receive_file_status.as_str().is_empty() {
            proof {
                assert(self@ =~= step(old(self)@, Message::ClearTailDropStatus));
            }
            Option::Some(Effect::ScheduleReceiveClear(STATUS_CLEAR_TIME))
        } else if !self.send_file_status.as_str().is_empty() || self.files_sent {
            self.selected_device_idx = Option::Some(0);
            if self.device_options.len() > 0 {
                self.selected_device = self.device_options[0].clone();
            }
            proof {
                assert(self@ =~= step(old(self)@, Message::ClearTailDropStatus));
            }
            Option::Some(Effect::ScheduleSendClear(STATUS_CLEAR_TIME))
        } else {
            proof {
                assert(self@ =~= step(old(self)@, Message::ClearTailDropStatus));
            }
            Option::None
        }
    }

    /// A fresh snapshot arrived: take over every reported field and
    /// revalidate the two selections against the refreshed lists.
    fn on_state_refreshed(&mut self, st: TailscaleState) -> (eff: Option<Effect>)
        ensures
            final(self)@ == step(old(self)@, Message::StateRefreshed(st)),
            eff_view(eff) == emit(old(self)@, Message::StateRefreshed(st)),
    {
        let ghost st0 = st;
        self.ip = st.ip;
        self.conn_status = st.connected;
        self.connect = st.connected;
        self.ssh = st.ssh_enabled;
        self.routes = st.routes_enabled;
        self.is_exit_node = st.is_exit_node;
        self.device_options = st.devices;
        self.avail_exit_nodes = st.exit_nodes;
        self.acct_list = st.acct_list;
        self.cur_acct = st.current_acct;
        let dev_stale = match self.selected_device_idx {
            Option::Some(i) => i >= self.device_options.len(),
            Option::None => false,
        };
        if dev_stale {
            self.selected_device_idx = Option::Some(0);
            if self.device_options.len() > 0 {
                self.selected_device = self.device_options[0].clone();
            }
        }
        let exit_stale = match self.sel_exit_node_idx {
            Option::Some(i) => i >= self.avail_exit_nodes.len(),
            Option::None => false,
        };
        if exit_stale {
            self.sel_exit_node_idx = Option::Some(0);
            if self.avail_exit_nodes.len() > 0 {
                self.sel_exit_node = self.avail_exit_nodes[0].clone();
            }
        }
        proof {
            assert(self@ =~= step(old(self)@, Message::StateRefreshed(st0)));
        }
        Option::None
    }

    /// Apply one intent: mutate the state as the transition function says
    /// and hand back the background task it schedules, if any.
    pub fn update(&mut self, msg: Message) -> (eff: Option<Effect>)
        ensures
            final(self)@ == step(old(self)@, msg),
            eff_view(eff) == emit(old(self)@, msg),
    {
        match msg {
            Message::TogglePopup => self.on_toggle_popup(),
            Message::PopupOpened(id) => self.on_popup_opened(id),
            Message::PopupClosed(id) => self.on_popup_closed(id),
            Message::EnableSSH(v) => self.on_enable_ssh(v),
            Message::SshSet(v, ok) => self.on_ssh_set(v, ok),
            Message::AcceptRoutes(v) => self.on_accept_routes(v),
            Message::RoutesSet(v, ok) => self.on_routes_set(v, ok),
            Message::ConnectDisconnect(v) => self.on_connect_disconnect(v),
            Message::ConnectionSet(v, ok) => self.on_connection_set(v, ok),
            Message::SwitchAccount(i) => self.on_switch_account(i),
            Message::DeviceSelected(i) => self.on_device_selected(i),
            Message::ChooseFiles => Option::Some(Effect::OpenFileChooser),
            Message::FilesSelected(paths) => self.on_files_selected(paths),
            Message::SendFiles => self.on_send_files(),
            Message::FilesSent(st) => self.on_files_sent(st),
            Message::FileChoosingCancelled => Option::Some(Effect::CreatePopup),
            Message::ReceiveFiles => Option::Some(Effect::RunReceiveFiles),
            Message::FilesReceived(st) => self.on_files_received(st),
            Message::ExitNodeSelected(i) => self.on_exit_node_selected(i),
            Message::ExitNodeSet(prev_name, prev_idx, idx, ok) => self.on_exit_node_set(
                prev_name, prev_idx, idx, ok),
            Message::AllowExitNodeLanAccess(v) => self.on_allow_lan_access(v),
            Message::LanAccessSet(v, ok) => self.on_lan_access_set(v, ok),
            Message::UpdateIsExitNode(v) => self.on_update_is_exit_node(v),
            Message::ExitNodeEnabled(v, ok) => self.on_exit_node_enabled(v, ok),
            Message::ClearTailDropStatus => self.on_clear_tail_drop_status(),
            Message::RefreshState => Option::Some(Effect::RefreshState),
            Message::StateRefreshed(st) => self.on_state_refreshed(st),
            Message::RefreshFailed(_e) => Option::None,
        }
    }
}

/// The initial panel state: the placeholders alone, nothing pending, and
/// the persisted selections mirrored from the configuration.
pub open spec fn init_view(config: TailscaleConfig) -> UiView {
    UiView {
        popup: Option::None,
        ssh: false,
        routes: false,
        connect: false,
        device_options: seq!["Select"@],
        selected_device: "Select Exit Node"@,
        selected_device_idx: Option::Some(0usize),
        send_files: Seq::<Seq<char>>::empty(),
        send_file_status: Seq::<char>::empty(),
        files_sent: false,
        receive_file_status: Seq::<char>::empty(),
        avail_exit_nodes: seq!["None"@],
        sel_exit_node: "Select Exit Node"@,
        sel_exit_node_idx: if config.exit_node_idx > 0 {
            Option::Some(config.exit_node_idx)
        } else {
            Option::None
        },
        acct_list: Seq::<Seq<char>>::empty(),
        cur_acct: Seq::<char>::empty(),
        allow_lan: config.allow_lan,
        is_exit_node: false,
        ip: "loading"@,
        conn_status: false,
        config,
    }
}

/// The outbound status line the panel shows: the stored status text when
/// there is one; the success banner after a send to a real device; a
/// prompt to choose a device while none is selected; otherwise nothing.
pub open spec fn send_status_line_of(s: UiView) -> Seq<char> {
    if s.send_file_status.len() > 0 {
        s.send_file_status
    } else if s.files_sent && s.selected_device != "Select"@ {
        "Files sent successfully!"@
    } else if s.selected_device == "Select"@ && !s.files_sent {
        "Choose a device first!"@
    } else {
        Seq::<char>::empty()
    }
}

impl UiState {
    /// The outbound status line the panel shows right now.
    pub fn send_status_line(&self) -> (r: String)
        ensures
            r@ == send_status_line_of(self@),
    {
        if !self.send_file_status.as_str().is_empty() {
            self.send_file_status.clone()
        } else {
            let at_placeholder = str_eq(self.selected_device.as_str(), "Select");
            if self.files_sent && !at_placeholder {
                String::from_str("Files sent successfully!")
            } else if at_placeholder && !self.files_sent {
                String::from_str("Choose a device first!")
            } else {
                String::new()
            }
        }
    }
}

/// The index of the first account equal to `name`, the way the account
/// dropdown pre-selects the active account.
pub fn find_account_index(list: &Vec<String>, name: &str) -> (r: Option<usize>)
    ensures
        match r {
            Option::Some(i) => (i as int) < list@.len() && list.deep_view()[i as int] == name@
                && forall|k: int| 0 <= k < i ==> list.deep_view()[k] != name@,
            Option::None => forall|k: int| 0 <= k < list@.len() ==> list.deep_view()[k] != name@,
        },
{
    let n = list.len();
    let mut i: usize = 0;
    while i < n
        invariant
            n == list@.len(),
            0 <= i <= n,
            forall|k: int| 0 <= k < i ==> list.deep_view()[k] != name@,
        decreases n - i,
    {
        if str_eq(list[i].as_str(), name) {
            return Option::Some(i);
        }
        i = i + 1;
    }
    Option::None
}

} // verus!
