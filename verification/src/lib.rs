//! An HTTP reverse-proxy load balancer: a shared healthy set of upstream
//! targets maintained by a periodic health checker, round-robin and random
//! selection policies over it, and the request pipeline that translates
//! between inbound requests, upstream calls, and responses. The network
//! itself — listening, probing, and the upstream calls — is driven by the
//! surrounding runtime; everything the balancer decides is specified and
//! verified here.

pub mod background_health_checker;
pub mod forward_service;
pub mod header_list;
pub mod healthy_set;
pub mod http_client;
pub mod request_id;
pub mod route;
pub mod select_server;
pub mod select_server_service;
pub mod text;
pub mod wakanda_http_service;
