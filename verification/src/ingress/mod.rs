//! Where miners connect to the proxy.
pub mod sv1_ingress;
