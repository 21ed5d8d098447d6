//! Typed IBC events, the raw ABCI events they are decoded from, and the
//! classifiers over event kinds.

use vstd::prelude::*;
use crate::height::Height;
use crate::types::{Packet, PacketV};

verus! {

/// One key/value attribute of a raw ABCI event.
#[derive(Clone, Debug)]
pub struct AbciAttribute {
    pub key: String,
    pub value: String,
}

pub struct AbciAttributeV {
    pub key: Seq<char>,
    pub value: Seq<char>,
}

impl View for AbciAttribute {
    type V = AbciAttributeV;

    open spec fn view(&self) -> AbciAttributeV {
        AbciAttributeV { key: self.key@, value: self.value@ }
    }
}

impl DeepView for AbciAttribute {
    type V = AbciAttributeV;

    open spec fn deep_view(&self) -> AbciAttributeV {
        self.view()
    }
}

/// A raw ABCI event: a kind string plus key/value attributes.
#[derive(Clone, Debug)]
pub struct AbciEvent {
    pub kind: String,
    pub attributes: Vec<AbciAttribute>,
}

pub struct AbciEventV {
    pub kind: Seq<char>,
    pub attributes: Seq<AbciAttributeV>,
}

impl View for AbciEvent {
    type V = AbciEventV;

    open spec fn view(&self) -> AbciEventV {
        AbciEventV { kind: self.kind@, attributes: self.attributes.deep_view() }
    }
}

/// The kinds of IBC events, as they appear in ABCI event kind strings.
#[derive(Clone, Copy, Debug, PartialEq, Eq, Structural)]
pub enum IbcEventType {
    CreateClient,
    UpdateClient,
    UpgradeClient,
    ClientMisbehaviour,
    PushWasmCode,
    OpenInitConnection,
    OpenTryConnection,
    OpenAckConnection,
    OpenConfirmConnection,
    OpenInitChannel,
    OpenTryChannel,
    OpenAckChannel,
    OpenConfirmChannel,
    CloseInitChannel,
    CloseConfirmChannel,
    SendPacket,
    ReceivePacket,
    WriteAck,
    AckPacket,
    Timeout,
    TimeoutOnClose,
}

/// The attributes of a client event.
#[derive(Clone, Debug)]
pub struct ClientAttributes {
    pub client_id: String,
    pub client_type: String,
    pub consensus_height: Height,
    pub height: Height,
}

pub struct ClientAttributesV {
    pub client_id: Seq<char>,
    pub client_type: Seq<char>,
    pub consensus_height: Height,
    pub height: Height,
}

impl View for ClientAttributes {
    type V = ClientAttributesV;

    open spec fn view(&self) -> ClientAttributesV {
        ClientAttributesV {
            client_id: self.client_id@,
            client_type: self.client_type@,
            consensus_height: self.consensus_height,
            height: self.height,
        }
    }
}

/// The attributes of a connection handshake event.
#[derive(Clone, Debug)]
pub struct ConnectionAttributes {
    pub connection_id: Option<String>,
    pub client_id: String,
    pub counterparty_connection_id: Option<String>,
    pub counterparty_client_id: String,
    pub height: Height,
}

pub struct ConnectionAttributesV {
    pub connection_id: Option<Seq<char>>,
    pub client_id: Seq<char>,
    pub counterparty_connection_id: Option<Seq<char>>,
    pub counterparty_client_id: Seq<char>,
    pub height: Height,
}

impl View for ConnectionAttributes {
    type V = ConnectionAttributesV;

    open spec fn view(&self) -> ConnectionAttributesV {
        ConnectionAttributesV {
            connection_id: self.connection_id.deep_view(),
            client_id: self.client_id@,
            counterparty_connection_id: self.counterparty_connection_id.deep_view(),
            counterparty_client_id: self.counterparty_client_id@,
            height: self.height,
        }
    }
}

/// The attributes of a channel handshake event.
#[derive(Clone, Debug)]
pub struct ChannelAttributes {
    pub port_id: String,
    pub channel_id: Option<String>,
    pub connection_id: String,
    pub counterparty_port_id: String,
    pub counterparty_channel_id: Option<String>,
    pub height: Height,
}

pub struct ChannelAttributesV {
    pub port_id: Seq<char>,
    pub channel_id: Option<Seq<char>>,
    pub connection_id: Seq<char>,
    pub counterparty_port_id: Seq<char>,
    pub counterparty_channel_id: Option<Seq<char>>,
    pub height: Height,
}

impl View for ChannelAttributes {
    type V = ChannelAttributesV;

    open spec fn view(&self) -> ChannelAttributesV {
        ChannelAttributesV {
            port_id: self.port_id@,
            channel_id: self.channel_id.deep_view(),
            connection_id: self.connection_id@,
            counterparty_port_id: self.counterparty_port_id@,
            counterparty_channel_id: self.counterparty_channel_id.deep_view(),
            height: self.height,
        }
    }
}

/// A typed IBC event, as the translator consumes it.
#[derive(Clone, Debug)]
pub enum IbcEvent {
    CreateClient(ClientAttributes),
    UpdateClient { common: ClientAttributes, header: Option<Vec<u8>> },
    UpgradeClient(ClientAttributes),
    ClientMisbehaviour(ClientAttributes),
    PushWasmCode(Vec<u8>),
    OpenInitConnection(ConnectionAttributes),
    OpenTryConnection(ConnectionAttributes),
    OpenAckConnection(ConnectionAttributes),
    OpenConfirmConnection(ConnectionAttributes),
    OpenInitChannel(ChannelAttributes),
    OpenTryChannel(ChannelAttributes),
    OpenAckChannel(ChannelAttributes),
    OpenConfirmChannel(ChannelAttributes),
    CloseInitChannel(ChannelAttributes),
    CloseConfirmChannel(ChannelAttributes),
    SendPacket { packet: Packet, height: Height },
    ReceivePacket { packet: Packet, height: Height },
    WriteAcknowledgement { packet: Packet, ack: Vec<u8>, height: Height },
    AcknowledgePacket { packet: Packet, height: Height },
    TimeoutPacket { packet: Packet, height: Height },
    TimeoutOnClosePacket { packet: Packet, height: Height },
}

pub enum IbcEventV {
    CreateClient(ClientAttributesV),
    UpdateClient { common: ClientAttributesV, header: Option<Seq<u8>> },
    UpgradeClient(ClientAttributesV),
    ClientMisbehaviour(ClientAttributesV),
    PushWasmCode(Seq<u8>),
    OpenInitConnection(ConnectionAttributesV),
    OpenTryConnection(ConnectionAttributesV),
    OpenAckConnection(ConnectionAttributesV),
    OpenConfirmConnection(ConnectionAttributesV),
    OpenInitChannel(ChannelAttributesV),
    OpenTryChannel(ChannelAttributesV),
    OpenAckChannel(ChannelAttributesV),
    OpenConfirmChannel(ChannelAttributesV),
    CloseInitChannel(ChannelAttributesV),
    CloseConfirmChannel(ChannelAttributesV),
    SendPacket { packet: PacketV, height: Height },
    ReceivePacket { packet: PacketV, height: Height },
    WriteAcknowledgement { packet: PacketV, ack: Seq<u8>, height: Height },
    AcknowledgePacket { packet: PacketV, height: Height },
    TimeoutPacket { packet: PacketV, height: Height },
    TimeoutOnClosePacket { packet: PacketV, height: Height },
}

impl View for IbcEvent {
    type V = IbcEventV;

    open spec fn view(&self) -> IbcEventV {
        match self {
            IbcEvent::CreateClient(a) => IbcEventV::CreateClient(a@),
            IbcEvent::UpdateClient { common, header } => IbcEventV::UpdateClient {
                common: common@,
                header: header.deep_view(),
            },
            IbcEvent::UpgradeClient(a) => IbcEventV::UpgradeClient(a@),
            IbcEvent::ClientMisbehaviour(a) => IbcEventV::ClientMisbehaviour(a@),
            IbcEvent::PushWasmCode(b) => IbcEventV::PushWasmCode(b@),
            IbcEvent::OpenInitConnection(a) => IbcEventV::OpenInitConnection(a@),
            IbcEvent::OpenTryConnection(a) => IbcEventV::OpenTryConnection(a@),
            IbcEvent::OpenAckConnection(a) => IbcEventV::OpenAckConnection(a@),
            IbcEvent::OpenConfirmConnection(a) => IbcEventV::OpenConfirmConnection(a@),
            IbcEvent::OpenInitChannel(a) => IbcEventV::OpenInitChannel(a@),
            IbcEvent::OpenTryChannel(a) => IbcEventV::OpenTryChannel(a@),
            IbcEvent::OpenAckChannel(a) => IbcEventV::OpenAckChannel(a@),
            IbcEvent::OpenConfirmChannel(a) => IbcEventV::OpenConfirmChannel(a@),
            IbcEvent::CloseInitChannel(a) => IbcEventV::CloseInitChannel(a@),
            IbcEvent::CloseConfirmChannel(a) => IbcEventV::CloseConfirmChannel(a@),
            IbcEvent::SendPacket { packet, height } => IbcEventV::SendPacket {
                packet: packet@,
                height: *height,
            },
            IbcEvent::ReceivePacket { packet, height } => IbcEventV::ReceivePacket {
                packet: packet@,
                height: *height,
            },
            IbcEvent::WriteAcknowledgement { packet, ack, height } => {
                IbcEventV::WriteAcknowledgement { packet: packet@, ack: ack@, height: *height }
            },
            IbcEvent::AcknowledgePacket { packet, height } => IbcEventV::AcknowledgePacket {
                packet: packet@,
                height: *height,
            },
            IbcEvent::TimeoutPacket { packet, height } => IbcEventV::TimeoutPacket {
                packet: packet@,
                height: *height,
            },
            IbcEvent::TimeoutOnClosePacket { packet, height } => IbcEventV::TimeoutOnClosePacket {
                packet: packet@,
                height: *height,
            },
        }
    }
}

impl DeepView for IbcEvent {
    type V = IbcEventV;

    open spec fn deep_view(&self) -> IbcEventV {
        self.view()
    }
}

/// An event paired with the height it was observed at.
#[derive(Clone, Debug)]
pub struct IbcEventWithHeight {
    pub event: IbcEvent,
    pub height: Height,
}

pub struct IbcEventWithHeightV {
    pub event: IbcEventV,
    pub height: Height,
}

impl View for IbcEventWithHeight {
    type V = IbcEventWithHeightV;

    open spec fn view(&self) -> IbcEventWithHeightV {
        IbcEventWithHeightV { event: self.event@, height: self.height }
    }
}

impl IbcEventWithHeight {
    pub fn new(event: IbcEvent, height: Height) -> (r: IbcEventWithHeight)
        ensures
            r@.event == event@,
            r@.height == height,
    {
        IbcEventWithHeight { event, height }
    }

    /// The same event observed at another height.
    pub fn with_height(self, height: Height) -> (r: IbcEventWithHeight)
        ensures
            r@.event == self@.event,
            r@.height == height,
    {
        IbcEventWithHeight { event: self.event, height }
    }
}

/// True of client-scope events.
pub open spec fn spec_event_is_type_client(ev: IbcEventV) -> bool {
    ev is CreateClient || ev is UpdateClient || ev is UpgradeClient || ev is ClientMisbehaviour
        || ev is PushWasmCode
}

/// True of connection handshake events.
pub open spec fn spec_event_is_type_connection(ev: IbcEventV) -> bool {
    ev is OpenInitConnection || ev is OpenTryConnection || ev is OpenAckConnection
        || ev is OpenConfirmConnection
}

/// True of channel-scope events, packets included.
pub open spec fn spec_event_is_type_channel(ev: IbcEventV) -> bool {
    ev is OpenInitChannel || ev is OpenTryChannel || ev is OpenAckChannel
        || ev is OpenConfirmChannel || ev is CloseInitChannel || ev is CloseConfirmChannel
        || ev is SendPacket || ev is ReceivePacket || ev is WriteAcknowledgement
        || ev is AcknowledgePacket || ev is TimeoutPacket || ev is TimeoutOnClosePacket
}

pub fn event_is_type_client(ev: &IbcEvent) -> (r: bool)
    ensures
        r == spec_event_is_type_client(ev@),
{
    matches!(
        ev,
        IbcEvent::CreateClient(_)
            | IbcEvent::UpdateClient { .. }
            | IbcEvent::UpgradeClient(_)
            | IbcEvent::ClientMisbehaviour(_)
            | IbcEvent::PushWasmCode(_)
    )
}

pub fn event_is_type_connection(ev: &IbcEvent) -> (r: bool)
    ensures
        r == spec_event_is_type_connection(ev@),
{
    matches!(
        ev,
        IbcEvent::OpenInitConnection(_)
            | IbcEvent::OpenTryConnection(_)
            | IbcEvent::OpenAckConnection(_)
            | IbcEvent::OpenConfirmConnection(_)
    )
}

pub fn event_is_type_channel(ev: &IbcEvent) -> (r: bool)
    ensures
        r == spec_event_is_type_channel(ev@),
{
    matches!(
        ev,
        IbcEvent::OpenInitChannel(_)
            | IbcEvent::OpenTryChannel(_)
            | IbcEvent::OpenAckChannel(_)
            | IbcEvent::OpenConfirmChannel(_)
            | IbcEvent::CloseInitChannel(_)
            | IbcEvent::CloseConfirmChannel(_)
            | IbcEvent::SendPacket { .. }
            | IbcEvent::ReceivePacket { .. }
            | IbcEvent::WriteAcknowledgement { .. }
            | IbcEvent::AcknowledgePacket { .. }
            | IbcEvent::TimeoutPacket { .. }
            | IbcEvent::TimeoutOnClosePacket { .. }
    )
}

/// Some kind in the batch is a packet kind: a send or a written ack.
pub fn has_packet_events(event_types: &[IbcEventType]) -> (r: bool)
    ensures
        r == exists|i: int|
            0 <= i < event_types@.len() && (#[trigger] event_types@[i] is SendPacket
                || event_types@[i] is WriteAck),
{
    let mut i: usize = 0;
    while i < event_types.len()
        invariant
            0 <= i <= event_types@.len(),
            forall|j: int|
                0 <= j < i ==> !(#[trigger] event_types@[j] is SendPacket
                    || event_types@[j] is WriteAck),
        decreases event_types@.len() - i,
    {
        match event_types[i] {
            IbcEventType::SendPacket => {
                return true;
            },
            IbcEventType::WriteAck => {
                return true;
            },
            _ => {},
        }
        i = i + 1;
    }
    false
}

/// The kind an ABCI event kind string names, if any.
pub open spec fn spec_event_kind(kind: Seq<char>) -> Option<IbcEventType> {
    if kind == "create_client"@ {
        Some(IbcEventType::CreateClient)
    } else if kind == "update_client"@ {
        Some(IbcEventType::UpdateClient)
    } else if kind == "upgrade_client"@ {
        Some(IbcEventType::UpgradeClient)
    } else if kind == "client_misbehaviour"@ {
        Some(IbcEventType::ClientMisbehaviour)
    } else if kind == "push_wasm_code"@ {
        Some(IbcEventType::PushWasmCode)
    } else if kind == "connection_open_init"@ {
        Some(IbcEventType::OpenInitConnection)
    } else if kind == "connection_open_try"@ {
        Some(IbcEventType::OpenTryConnection)
    } else if kind == "connection_open_ack"@ {
        Some(IbcEventType::OpenAckConnection)
    } else if kind == "connection_open_confirm"@ {
        Some(IbcEventType::OpenConfirmConnection)
    } else if kind == "channel_open_init"@ {
        Some(IbcEventType::OpenInitChannel)
    } else if kind == "channel_open_try"@ {
        Some(IbcEventType::OpenTryChannel)
    } else if kind == "channel_open_ack"@ {
        Some(IbcEventType::OpenAckChannel)
    } else if kind == "channel_open_confirm"@ {
        Some(IbcEventType::OpenConfirmChannel)
    } else if kind == "channel_close_init"@ {
        Some(IbcEventType::CloseInitChannel)
    } else if kind == "channel_close_confirm"@ {
        Some(IbcEventType::CloseConfirmChannel)
    } else if kind == "send_packet"@ {
        Some(IbcEventType::SendPacket)
    } else if kind == "recv_packet"@ {
        Some(IbcEventType::ReceivePacket)
    } else if kind == "write_acknowledgement"@ {
        Some(IbcEventType::WriteAck)
    } else if kind == "acknowledge_packet"@ {
        Some(IbcEventType::AckPacket)
    } else if kind == "timeout_packet"@ {
        Some(IbcEventType::Timeout)
    } else if kind == "timeout_on_close_packet"@ {
        Some(IbcEventType::TimeoutOnClose)
    } else {
        None
    }
}

/// Parse an ABCI event kind string.
pub fn parse_event_kind(kind: &String) -> (r: Option<IbcEventType>)
    ensures
        r == spec_event_kind(kind@),
{
    if *kind == "create_client".to_owned() {
        Some(IbcEventType::CreateClient)
    } else if *kind == "update_client".to_owned() {
        Some(IbcEventType::UpdateClient)
    } else if *kind == "upgrade_client".to_owned() {
        Some(IbcEventType::UpgradeClient)
    } else if *kind == "client_misbehaviour".to_owned() {
        Some(IbcEventType::ClientMisbehaviour)
    } else if *kind == "push_wasm_code".to_owned() {
        Some(IbcEventType::PushWasmCode)
    } else if *kind == "connection_open_init".to_owned() {
        Some(IbcEventType::OpenInitConnection)
    } else if *kind == "connection_open_try".to_owned() {
        Some(IbcEventType::OpenTryConnection)
    } else if *kind == "connection_open_ack".to_owned() {
        Some(IbcEventType::OpenAckConnection)
    } else if *kind == "connection_open_confirm".to_owned() {
        Some(IbcEventType::OpenConfirmConnection)
    } else if *kind == "channel_open_init".to_owned() {
        Some(IbcEventType::OpenInitChannel)
    } else if *kind == "channel_open_try".to_owned() {
        Some(IbcEventType::OpenTryChannel)
    } else if *kind == "channel_open_ack".to_owned() {
        Some(IbcEventType::OpenAckChannel)
    } else if *kind == "channel_open_confirm".to_owned() {
        Some(IbcEventType::OpenConfirmChannel)
    } else if *kind == "channel_close_init".to_owned() {
        Some(IbcEventType::CloseInitChannel)
    } else if *kind == "channel_close_confirm".to_owned() {
        Some(IbcEventType::CloseConfirmChannel)
    } else if *kind == "send_packet".to_owned() {
        Some(IbcEventType::SendPacket)
    } else if *kind == "recv_packet".to_owned() {
        Some(IbcEventType::ReceivePacket)
    } else if *kind == "write_acknowledgement".to_owned() {
        Some(IbcEventType::WriteAck)
    } else if *kind == "acknowledge_packet".to_owned() {
        Some(IbcEventType::AckPacket)
    } else if *kind == "timeout_packet".to_owned() {
        Some(IbcEventType::Timeout)
    } else if *kind == "timeout_on_close_packet".to_owned() {
        Some(IbcEventType::TimeoutOnClose)
    } else {
        None
    }
}

} // verus!
