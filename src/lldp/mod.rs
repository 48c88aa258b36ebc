//! The IEEE 802.1AB link layer discovery protocol.
pub mod du;
pub mod tlv;
