use std::sync::Arc;

use vstd::prelude::*;

verus! {

/// The process configuration: the addresses of the collaborator services and
/// of the supporting infrastructure.
pub struct SettingsModel {
    pub accounts_manager_grpc: String,
    pub position_manager_grpc: String,
    pub a_book_bridge_grpc: Option<String>,
    pub my_no_sql_tcp_reader: String,
    pub seq_conn_string: String,
    pub my_telemetry: String,
}

/// The address one remote client connects to.
pub struct GrpcSettings {
    pub url: String,
}

impl GrpcSettings {
    /// Wrap a service address for sharing across clients.
    pub fn new_arc(url: String) -> (r: Arc<GrpcSettings>)
        ensures
            (*r).url == url,
    {
        Arc::new(GrpcSettings { url })
    }

    /// The address this setting holds.
    pub fn get_grpc_url(&self) -> (r: String)
        ensures
            r == self.url,
    {
        self.url.clone()
    }
}

/// The address of the account ledger service.
pub struct AccountsManagerSettingsGrpcUrl {
    pub url: String,
}

impl AccountsManagerSettingsGrpcUrl {
    pub fn new(url: String) -> (r: AccountsManagerSettingsGrpcUrl)
        ensures
            r.url == url,
    {
        AccountsManagerSettingsGrpcUrl { url }
    }

    /// The address this setting holds.
    pub fn get_grpc_url(&self) -> (r: String)
        ensures
            r == self.url,
    {
        self.url.clone()
    }
}

} // verus!
