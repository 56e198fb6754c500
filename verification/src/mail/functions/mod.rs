pub mod acknowledge_mail;
pub mod check_incoming_ack;
