//! Core of a LoRa gateway forwarder: regulatory throttling, the packet
//! model and its translations, signed-beacon matching, and the decisions of
//! the gateway loop and the downlink scheduler.
pub mod beacon_queue;
pub mod datarate;
pub mod downlink;
pub mod error;
pub mod gateway;
pub mod lora_throttle;
pub mod packet;
pub mod units;
