//! The gateway's decisions: what to do with each event from the packet
//! forwarder, and which messages reach it from the router side.
use vstd::prelude::*;
use crate::beacon_queue::{SignedBeaconQueue, bounded_push, is_first_with_key};
use crate::error::DecodeError;
use crate::packet::{
    PacketDown, PacketUp, PacketUpView, RxRecord, CrcStatus, is_beacon, packet_of_record, parsed_time_of,
};

verus! {

/// A message to the gateway from the router side.
#[derive(Debug, Clone)]
pub enum Message {
    Downlink(PacketDown),
}

/// An event from the packet-forwarder side.
#[derive(Debug, Clone)]
pub enum GatewayEvent {
    /// A datagram that could not be parsed.
    UnableToParseUdpFrame,
    /// A forwarder announced itself, with its MAC address.
    NewClient([u8; 8]),
    /// A known forwarder changed address.
    UpdateClient([u8; 8]),
    ClientDisconnected([u8; 8]),
    /// A reception.
    PacketReceived(RxRecord),
    /// A secure concentrator's signature over the packet with this id.
    PacketSigReceived { key: u32, signature: Vec<u8> },
    /// A send was addressed to an unknown forwarder.
    NoClientWithMac([u8; 8]),
    /// Forwarder statistics.
    StatReceived([u8; 8]),
}

/// What the gateway asks its surroundings to do after an event.
#[derive(Debug, Clone)]
pub enum GatewayAction {
    /// Nothing beyond a log line.
    Ignore,
    /// A reception was refused.
    Drop(DecodeError),
    /// Forward a LoRaWAN uplink to the routers.
    Uplink(PacketUp),
    /// Hand a Proof-of-Coverage beacon to the beacon pipeline.
    PocPacket(PacketUp),
    /// A queued beacon from a secure concentrator got its signature; hand it
    /// to the witness reports.
    SignedBeacon(PacketUp),
}

/// The gateway's state between events.
#[derive(Debug)]
pub struct Gateway {
    /// MAC address (EUI-64) that downlinks are sent to: that of the latest
    /// forwarder to announce itself.
    downlink_mac: [u8; 8],
    /// Router-protocol region code of the receptions.
    region: i32,
    signed_pkt_queue: SignedBeaconQueue,
}

impl Gateway {
    pub closed spec fn mac(&self) -> Seq<u8> {
        self.downlink_mac@
    }

    pub closed spec fn region_code(&self) -> i32 {
        self.region
    }

    pub closed spec fn queue(&self) -> Seq<(u32, PacketUpView)> {
        self.signed_pkt_queue@
    }

    pub open spec fn wf(&self) -> bool {
        self.queue().len() <= crate::beacon_queue::SIGNED_QUEUE_CAPACITY
    }

    pub fn new(region: i32) -> (r: Self)
        ensures
            r.wf(),
            r.region_code() == region,
            r.mac() == seq![0u8, 0u8, 0u8, 0u8, 0u8, 0u8, 0u8, 0u8],
            r.queue().len() == 0,
    {
        let r = Gateway { downlink_mac: [0u8; 8], region, signed_pkt_queue: SignedBeaconQueue::new() };
        assert(r.mac() =~= seq![0u8, 0u8, 0u8, 0u8, 0u8, 0u8, 0u8, 0u8]);
        r
    }

    /// MAC address that downlinks go to.
    pub fn downlink_mac(&self) -> (r: [u8; 8])
        ensures
            r@ == self.mac(),
    {
        self.downlink_mac
    }

    /// Packet ids of the beacons that wait for a signature, oldest first.
    pub fn queued_keys(&self) -> (r: Vec<u32>)
        ensures
            r@ == self.queue().map_values(|e: (u32, PacketUpView)| e.0),
    {
        self.signed_pkt_queue.keys()
    }

    /// Handles an event from the packet forwarder; `now_ns` is the local
    /// clock, which dates receptions that carry no readable time.
    pub fn handle_udp_event(&mut self, event: GatewayEvent, now_ns: u64) -> (r: GatewayAction)
        requires
            old(self).wf(),
        ensures
            final(self).wf(),
            final(self).region_code() == old(self).region_code(),
            match event {
                GatewayEvent::NewClient(mac) => r matches GatewayAction::Ignore && final(self).mac() == mac@
                    && final(self).queue() == old(self).queue(),
                GatewayEvent::PacketReceived(rx) => final(self).mac() == old(self).mac() && if rx.crc != CrcStatus::Good {
                    r matches GatewayAction::Drop(DecodeError::InvalidCrc) && final(self).queue() == old(self).queue()
                } else {
                    let p = packet_of_record(rx, old(self).region_code(), parsed_time_of(rx), now_ns);
                    if is_beacon(p) {
                        &&& r matches GatewayAction::PocPacket(q) && q@ == p
                        &&& final(self).queue() == match rx.key {
                            Some(k) => bounded_push(old(self).queue(), (k, p)),
                            None => old(self).queue(),
                        }
                    } else {
                        r matches GatewayAction::Uplink(q) && q@ == p && final(self).queue() == old(self).queue()
                    }
                },
                GatewayEvent::PacketSigReceived { key, signature } => final(self).mac() == old(self).mac() && match r {
                    GatewayAction::SignedBeacon(p) => exists|i: int|
                        is_first_with_key(old(self).queue(), key, i)
                        && p@ == (PacketUpView { concentrator_sig: Some(signature@), ..old(self).queue()[i].1 })
                        && final(self).queue() == old(self).queue().remove(i),
                    GatewayAction::Ignore => final(self).queue() == old(self).queue() && forall|i: int|
                        0 <= i < old(self).queue().len() ==> #[trigger] old(self).queue()[i].0 != key,
                    _ => false,
                },
                _ => r matches GatewayAction::Ignore && final(self).mac() == old(self).mac()
                    && final(self).queue() == old(self).queue(),
            },
    {
        match event {
            GatewayEvent::NewClient(mac) => {
                self.downlink_mac = mac;
                GatewayAction::Ignore
            },
            GatewayEvent::PacketReceived(rx) => {
                let key = rx.key;
                match PacketUp::from_rxpk(rx, self.region, now_ns) {
                    Err(e) => GatewayAction::Drop(e),
                    Ok(packet) => {
                        if packet.is_potential_beacon() {
                            match key {
                                Some(k) => self.signed_pkt_queue.push(k, packet.clone()),
                                None => {},
                            }
                            GatewayAction::PocPacket(packet)
                        } else {
                            GatewayAction::Uplink(packet)
                        }
                    },
                }
            },
            GatewayEvent::PacketSigReceived { key, signature } => {
                match self.signed_pkt_queue.take_signed(key) {
                    Some(mut packet) => {
                        packet.set_secure_sig(signature);
                        GatewayAction::SignedBeacon(packet)
                    },
                    None => GatewayAction::Ignore,
                }
            },
            _ => GatewayAction::Ignore,
        }
    }

    /// Handles a message from the router side: the downlink to schedule,
    /// and the MAC address of the forwarder it goes to.
    pub fn handle_message(&self, message: Message) -> (r: (PacketDown, [u8; 8]))
        ensures
            r.1@ == self.mac(),
            message matches Message::Downlink(d) && r.0 == d,
    {
        match message {
            Message::Downlink(packet) => (packet, self.downlink_mac),
        }
    }
}

} // verus!
