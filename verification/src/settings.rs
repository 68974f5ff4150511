//! The proxy records owned by the controller host: adding a proxy from a
//! typed port, selecting one, starting and stopping, and reacting to
//! controller events. Each decision names the command to send or the row to
//! persist; the channels themselves stay with the supervisor.

use vstd::prelude::*;
use vstd::string::StringExecFns;
use vstd::string::StrSliceExecFns;
use crate::config::ProxyConfig;
use crate::controller::ProxyCommand;
use crate::controller::ProxyEvent;
use crate::controller::ProxyState;
use crate::ProxyId;

verus! {

/// The numeric value of a digit string.
pub open spec fn dec_value(s: Seq<char>) -> nat
    decreases s.len(),
{
    if s.len() == 0 {
        0
    } else {
        (dec_value(s.drop_last()) * 10 + (s.last() as int - 48)) as nat
    }
}

/// Whether every character is a decimal digit.
pub open spec fn all_digits(s: Seq<char>) -> bool {
    forall|i: int| 0 <= i < s.len() ==> '0' <= #[trigger] s[i] && s[i] <= '9'
}

/// Whether a string is a valid port: nonempty, all digits, and within the
/// `u16` range.
pub open spec fn port_parses(s: Seq<char>) -> bool {
    s.len() > 0 && all_digits(s) && dec_value(s) <= 65535
}

/// A longer digit string is worth at least its prefix.
proof fn lemma_dec_value_prefix_le(s: Seq<char>, i: int)
    requires
        all_digits(s),
        0 <= i <= s.len(),
    ensures
        dec_value(s.take(i)) <= dec_value(s),
    decreases s.len() - i,
{
    if i < s.len() {
        assert(s.take(i + 1).drop_last() =~= s.take(i));
        assert(s.take(i + 1).last() == s[i]);
        assert(dec_value(s.take(i + 1)) == dec_value(s.take(i)) * 10 + (s[i] as nat - 48));
        assert(dec_value(s.take(i)) <= dec_value(s.take(i + 1)));
        lemma_dec_value_prefix_le(s, i + 1);
        assert(s.take(s.len() as int) =~= s);
    } else {
        assert(s.take(i) =~= s);
    }
}

/// Parses a port number: the digits' value, when the string is nonempty,
/// all digits, and the value fits a `u16`.
pub fn parse_port(s: &str) -> (r: Option<u16>)
    ensures
        r matches Some(v) ==> port_parses(s@) && v as nat == dec_value(s@),
        (r is None) <==> !port_parses(s@),
{
    let n = s.unicode_len();
    if n == 0 {
        return None;
    }
    let mut acc: u32 = 0;
    let mut i: usize = 0;
    while i < n
        invariant
            n == s@.len(),
            0 < n,
            i <= n,
            all_digits(s@.take(i as int)),
            acc as nat == dec_value(s@.take(i as int)),
            acc <= 65535,
        decreases n - i,
    {
        let c = s.get_char(i);
        if c < '0' || c > '9' {
            return None;
        }
        let d: u32 = (c as u32) - 48;
        proof {
            assert(s@.take(i + 1).drop_last() =~= s@.take(i as int));
            assert(s@.take(i + 1).last() == s@[i as int]);
        }
        let next: u32 = acc * 10 + d;
        if next > 65535 {
            proof {
                let t = s@.take(i + 1);
                if all_digits(s@) {
                    assert(t =~= s@.take(i + 1));
                    lemma_dec_value_prefix_le(s@, i + 1);
                }
            }
            return None;
        }
        acc = next;
        i = i + 1;
    }
    proof {
        assert(s@.take(n as int) =~= s@);
    }
    Some(acc as u16)
}

/// One proxy record, as the controller host keeps it.
pub struct Proxy {
    pub auto_start: bool,
    pub id: ProxyId,
    pub port: u16,
    pub status: ProxyState,
    pub has_command: bool,
}

/// A message handled by the proxy settings.
#[derive(Debug)]
pub enum SettingsMessage {
    AddProxy,
    SelectProxy(ProxyId),
    ProxyPortRequest(String),
    StartProxy(ProxyId),
    StopProxy(ProxyId),
    ProxyEvent(ProxyEvent),
    Update,
}

/// What the supervisor should do after an update: nothing, send a command
/// to a controller, or persist a freshly added proxy row.
pub enum SettingsAction {
    NoAction,
    SendCommand(ProxyId, ProxyCommand),
    PersistProxy(ProxyConfig),
}

/// The proxy settings: the typed port, the proxy records and the selection.
pub struct SettingsTabs {
    proxy_port_request: String,
    proxies: Vec<Proxy>,
    selected_proxy: Option<ProxyId>,
}

impl SettingsTabs {
    /// No two records share an id.
    #[verifier::type_invariant]
    spec fn wf(self) -> bool {
        forall|i: int, j: int|
            0 <= i < j < self.proxies@.len() ==> (#[trigger] self.proxies@[i]).id != (
            #[trigger] self.proxies@[j]).id
    }

    /// The proxy records, in insertion order.
    pub closed spec fn records(self) -> Seq<Proxy> {
        self.proxies@
    }

    /// The port text typed so far.
    pub closed spec fn typed_port(self) -> Seq<char> {
        self.proxy_port_request@
    }

    /// The selected proxy id, if any.
    pub closed spec fn selection(self) -> Option<ProxyId> {
        self.selected_proxy
    }

    /// The selected proxy id, if any.
    pub fn selected(&self) -> (r: Option<ProxyId>)
        ensures
            r == self.selection(),
    {
        self.selected_proxy
    }

    /// The records as a vector of copies, for display.
    pub fn record_at(&self, i: usize) -> (r: Option<Proxy>)
        ensures
            r matches Some(p) ==> i < self.records().len() && p == self.records()[i as int],
            r is None <==> i >= self.records().len(),
    {
        if i < self.proxies.len() {
            let p = &self.proxies[i];
            Some(
                Proxy {
                    auto_start: p.auto_start,
                    id: p.id,
                    port: p.port,
                    status: match p.status {
                        ProxyState::Running => ProxyState::Running,
                        ProxyState::Stopped => ProxyState::Stopped,
                        ProxyState::Error => ProxyState::Error,
                    },
                    has_command: p.has_command,
                },
            )
        } else {
            None
        }
    }

    pub closed spec fn has_id(self, id: ProxyId) -> bool {
        exists|i: int| 0 <= i < self.proxies@.len() && (#[trigger] self.proxies@[i]).id == id
    }

    /// The record with the given id (unique by the record invariant).
    pub closed spec fn record_of(self, id: ProxyId) -> Proxy {
        self.proxies@[choose|i: int|
            0 <= i < self.proxies@.len() && (#[trigger] self.proxies@[i]).id == id]
    }

    /// Empty settings: no proxies, nothing typed, nothing selected.
    pub fn new() -> (s: Self)
        ensures
            s.records() == Seq::<Proxy>::empty(),
            s.typed_port() == Seq::<char>::empty(),
            s.selection() is None,
    {
        SettingsTabs {
            proxy_port_request: String::new(),
            proxies: Vec::new(),
            selected_proxy: None,
        }
    }

    /// The index of the record with this id, if any.
    fn find_index(&self, id: ProxyId) -> (r: Option<usize>)
        ensures
            r matches Some(i) ==> i < self.records().len() && self.records()[i as int].id == id,
            r is None <==> !self.has_id(id),
    {
        let mut i: usize = 0;
        while i < self.proxies.len()
            invariant
                i <= self.proxies@.len(),
                forall|k: int| 0 <= k < i ==> (#[trigger] self.proxies@[k]).id != id,
            decreases self.proxies@.len() - i,
        {
            if self.proxies[i].id == id {
                return Some(i);
            }
            i = i + 1;
        }
        None
    }

    /// Registers a proxy record for a persisted config row: a record with
    /// the same id is replaced, a new id is appended. The record starts
    /// stopped, without a command channel, and set to start automatically.
    pub fn add_proxy(&mut self, proxy_config: &ProxyConfig)
        ensures
            final(self).typed_port() == old(self).typed_port(),
            final(self).selection() == old(self).selection(),
            final(self).has_id(proxy_config.id),
            final(self).record_of(proxy_config.id) == (Proxy {
                auto_start: true,
                id: proxy_config.id,
                port: proxy_config.port,
                status: ProxyState::Stopped,
                has_command: false,
            }),
            old(self).has_id(proxy_config.id) ==> final(self).records().len() == old(
                self,
            ).records().len(),
            !old(self).has_id(proxy_config.id) ==> final(self).records().len() == old(
                self,
            ).records().len() + 1,
    {
        proof {
            use_type_invariant(&*self);
        }
        let record = Proxy {
            auto_start: true,
            id: proxy_config.id,
            port: proxy_config.port,
            status: ProxyState::Stopped,
            has_command: false,
        };
        let found = self.find_index(proxy_config.id);
        let mut proxies: Vec<Proxy> = Vec::new();
        std::mem::swap(&mut proxies, &mut self.proxies);
        let idx: usize;
        match found {
            Some(i) => {
                proxies[i] = record;
                idx = i;
            },
            None => {
                idx = proxies.len();
                proxies.push(record);
            },
        }
        self.proxies = proxies;
        proof {
            use_type_invariant(&*self);
            assert(self.proxies@[idx as int].id == proxy_config.id);
            lemma_record_at(self.proxies@, idx as int, proxy_config.id);
        }
    }

    /// Marks the record running and asks for `Start` to be sent where the
    /// record has a command channel. An unknown id changes nothing.
    fn start_proxy_cmd(&mut self, id: ProxyId) -> (action: SettingsAction)
        ensures
            final(self).typed_port() == old(self).typed_port(),
            final(self).selection() == old(self).selection(),
            final(self).records().len() == old(self).records().len(),
            final(self).has_id(id) == old(self).has_id(id),
            old(self).has_id(id) ==> final(self).record_of(id) == (Proxy {
                status: ProxyState::Running,
                ..old(self).record_of(id)
            }) && (if old(self).record_of(id).has_command {
                action == SettingsAction::SendCommand(id, ProxyCommand::Start)
            } else {
                action is NoAction
            }),
            !old(self).has_id(id) ==> *final(self) == *old(self) && action is NoAction,
    {
        proof {
            use_type_invariant(&*self);
        }
        let found = self.find_index(id);
        match found {
            None => SettingsAction::NoAction,
            Some(i) => {
                let has_command = self.proxies[i].has_command;
                let updated = Proxy {
                    auto_start: self.proxies[i].auto_start,
                    id: self.proxies[i].id,
                    port: self.proxies[i].port,
                    status: ProxyState::Running,
                    has_command,
                };
                let mut proxies: Vec<Proxy> = Vec::new();
                std::mem::swap(&mut proxies, &mut self.proxies);
                proxies[i] = updated;
                self.proxies = proxies;
                proof {
                    lemma_record_at(self.proxies@, i as int, id);
                    lemma_record_at(old(self).proxies@, i as int, id);
                }
                if has_command {
                    SettingsAction::SendCommand(id, ProxyCommand::Start)
                } else {
                    SettingsAction::NoAction
                }
            },
        }
    }

    /// Handles one settings message, per the controller-host rules:
    /// `AddProxy` registers a record under the next free index when the
    /// typed port parses and asks for the row to be persisted;
    /// `StartProxy`/`StopProxy` mark the record and ask for the command;
    /// `Initialized` attaches the command channel and auto-starts;
    /// `ProxyError` marks the record failed.
    pub fn update(&mut self, message: SettingsMessage) -> (action: SettingsAction)
        ensures
            match message {
                SettingsMessage::SelectProxy(id) => final(self).selection() == Some(id)
                    && final(self).records() == old(self).records() && action is NoAction,
                SettingsMessage::ProxyPortRequest(port) => final(self).typed_port() == port@
                    && final(self).records() == old(self).records() && action is NoAction,
                SettingsMessage::Update => *final(self) == *old(self) && action is NoAction,
                SettingsMessage::StartProxy(id) => old(self).has_id(id) ==> {
                    &&& final(self).record_of(id).status is Running
                    &&& if old(self).record_of(id).has_command {
                        action == SettingsAction::SendCommand(id, ProxyCommand::Start)
                    } else {
                        action is NoAction
                    }
                },
                SettingsMessage::StopProxy(id) => old(self).has_id(id) ==> {
                    &&& final(self).record_of(id).status is Stopped
                    &&& if old(self).record_of(id).has_command {
                        action == SettingsAction::SendCommand(id, ProxyCommand::Stop)
                    } else {
                        action is NoAction
                    }
                },
                SettingsMessage::AddProxy => {
                    &&& !port_parses(old(self).typed_port()) ==> *final(self) == *old(self)
                        && action is NoAction
                    &&& port_parses(old(self).typed_port()) ==> {
                        &&& final(self).typed_port() == Seq::<char>::empty()
                        &&& final(self).has_id(old(self).records().len() as usize)
                        &&& final(self).record_of(old(self).records().len() as usize).port
                            as nat == dec_value(old(self).typed_port())
                        &&& (action matches SettingsAction::PersistProxy(c) && c.id as int == old(
                            self,
                        ).records().len() && c.port as nat == dec_value(old(self).typed_port())
                            && !c.auto_start)
                    }
                },
                SettingsMessage::ProxyEvent(event) => match event {
                    ProxyEvent::ProxyError(id) => old(self).has_id(id)
                        ==> final(self).record_of(id).status is Error,
                    ProxyEvent::Initialized(id) => old(self).has_id(id) ==> {
                        &&& final(self).record_of(id).has_command
                        &&& old(self).record_of(id).auto_start ==> final(self).record_of(
                            id,
                        ).status is Running && action == SettingsAction::SendCommand(
                            id,
                            ProxyCommand::Start,
                        )
                        &&& !old(self).record_of(id).auto_start ==> final(self).record_of(
                            id,
                        ).status is Stopped && action is NoAction
                    },
                    ProxyEvent::NewHttpLogRow => *final(self) == *old(self) && action is NoAction,
                },
            },
    {
        proof {
            use_type_invariant(&*self);
        }
        match message {
            SettingsMessage::AddProxy => {
                let parsed = parse_port(self.proxy_port_request.as_str());
                match parsed {
                    Some(port) => {
                        let config = ProxyConfig {
                            port,
                            id: self.proxies.len(),
                            auto_start: false,
                        };
                        self.add_proxy(&config);
                        proof {
                            use_type_invariant(&*self);
                        }
                        self.proxy_port_request = String::new();
                        SettingsAction::PersistProxy(config)
                    },
                    None => SettingsAction::NoAction,
                }
            },
            SettingsMessage::SelectProxy(proxy_id) => {
                self.selected_proxy = Some(proxy_id);
                SettingsAction::NoAction
            },
            SettingsMessage::ProxyPortRequest(port) => {
                self.proxy_port_request = port;
                SettingsAction::NoAction
            },
            SettingsMessage::StartProxy(id) => self.start_proxy_cmd(id),
            SettingsMessage::StopProxy(id) => {
                let found = self.find_index(id);
                match found {
                    None => SettingsAction::NoAction,
                    Some(i) => {
                        let has_command = self.proxies[i].has_command;
                        let updated = Proxy {
                            auto_start: self.proxies[i].auto_start,
                            id: self.proxies[i].id,
                            port: self.proxies[i].port,
                            status: ProxyState::Stopped,
                            has_command,
                        };
                        let mut proxies: Vec<Proxy> = Vec::new();
                        std::mem::swap(&mut proxies, &mut self.proxies);
                        proxies[i] = updated;
                        self.proxies = proxies;
                        proof {
                            lemma_record_at(self.proxies@, i as int, id);
                            lemma_record_at(old(self).proxies@, i as int, id);
                        }
                        if has_command {
                            SettingsAction::SendCommand(id, ProxyCommand::Stop)
                        } else {
                            SettingsAction::NoAction
                        }
                    },
                }
            },
            SettingsMessage::ProxyEvent(event) => match event {
                ProxyEvent::ProxyError(id) => {
                    let found = self.find_index(id);
                    match found {
                        None => SettingsAction::NoAction,
                        Some(i) => {
                            let updated = Proxy {
                                auto_start: self.proxies[i].auto_start,
                                id: self.proxies[i].id,
                                port: self.proxies[i].port,
                                status: ProxyState::Error,
                                has_command: self.proxies[i].has_command,
                            };
                            let mut proxies: Vec<Proxy> = Vec::new();
                            std::mem::swap(&mut proxies, &mut self.proxies);
                            proxies[i] = updated;
                            self.proxies = proxies;
                            proof {
                                lemma_record_at(self.proxies@, i as int, id);
                            }
                            SettingsAction::NoAction
                        },
                    }
                },
                ProxyEvent::Initialized(id) => {
                    let found = self.find_index(id);
                    match found {
                        None => SettingsAction::NoAction,
                        Some(i) => {
                            let auto_start = self.proxies[i].auto_start;
                            let updated = Proxy {
                                auto_start,
                                id: self.proxies[i].id,
                                port: self.proxies[i].port,
                                status: ProxyState::Stopped,
                                has_command: true,
                            };
                            let mut proxies: Vec<Proxy> = Vec::new();
                            std::mem::swap(&mut proxies, &mut self.proxies);
                            proxies[i] = updated;
                            self.proxies = proxies;
                            proof {
                                lemma_record_at(self.proxies@, i as int, id);
                            }
                            if auto_start {
                                self.start_proxy_cmd(id)
                            } else {
                                SettingsAction::NoAction
                            }
                        },
                    }
                },
                ProxyEvent::NewHttpLogRow => SettingsAction::NoAction,
            },
            SettingsMessage::Update => SettingsAction::NoAction,
        }
    }
}

/// With unique ids, the record chosen for an id is the one at its index.
proof fn lemma_record_at(proxies: Seq<Proxy>, i: int, id: ProxyId)
    requires
        0 <= i < proxies.len(),
        proxies[i].id == id,
        forall|a: int, b: int|
            0 <= a < b < proxies.len() ==> (#[trigger] proxies[a]).id != (
            #[trigger] proxies[b]).id,
    ensures
        proxies[choose|k: int| 0 <= k < proxies.len() && (#[trigger] proxies[k]).id == id]
            == proxies[i],
{
    let k = choose|k: int| 0 <= k < proxies.len() && (#[trigger] proxies[k]).id == id;
    if k != i {
        if k < i {
            assert(proxies[k].id != proxies[i].id);
        } else {
            assert(proxies[i].id != proxies[k].id);
        }
    }
}

} // verus!
