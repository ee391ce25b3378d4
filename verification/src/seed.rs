//! The network assets a fresh installation starts with.
use vstd::prelude::*;

use crate::models::Asset;
use crate::text::owned;

verus! {

/// An asset as plain values: identifier, host name, address, type,
/// operating system, criticality, department, status.
pub type AssetEntry = (Seq<char>, Seq<char>, Seq<char>, Seq<char>, Seq<char>, Seq<char>, Seq<char>, Seq<char>);

/// The asset as plain values.
pub open spec fn asset_entry(a: Asset) -> AssetEntry {
    (a.id@, a.hostname@, a.ip_address@, a.asset_type@, a.os@, a.criticality@, a.department@, a.status@)
}

/// The number of default assets.
pub const DEFAULT_ASSET_COUNT: usize = 10;

/// The default asset at position `i`.
pub open spec fn default_asset(i: int) -> AssetEntry {
    if i == 0 {
        ("asset-dc01"@, "dc-server-01"@, "10.0.1.5"@, "server"@, "Windows Server 2022"@, "critical"@, "IT"@, "active"@)
    } else if i == 1 {
        ("asset-web01"@, "web-prod-01"@, "10.0.1.10"@, "server"@, "Ubuntu 22.04"@, "high"@, "Engineering"@, "active"@)
    } else if i == 2 {
        ("asset-db01"@, "db-server-01"@, "10.0.1.50"@, "server"@, "Windows Server 2019"@, "critical"@, "Engineering"@, "active"@)
    } else if i == 3 {
        ("asset-file01"@, "file-server-01"@, "10.0.1.20"@, "server"@, "Windows Server 2022"@, "high"@, "IT"@, "active"@)
    } else if i == 4 {
        ("asset-mail01"@, "mail-server-01"@, "10.0.1.30"@, "server"@, "Ubuntu 22.04"@, "high"@, "IT"@, "active"@)
    } else if i == 5 {
        ("asset-backup01"@, "backup-server-01"@, "10.0.1.60"@, "server"@, "Ubuntu 22.04"@, "critical"@, "IT"@, "active"@)
    } else if i == 6 {
        ("asset-ws-hr01"@, "workstation-HR-01"@, "10.0.2.15"@, "workstation"@, "Windows 11"@, "medium"@, "HR"@, "active"@)
    } else if i == 7 {
        ("asset-ws-fin01"@, "workstation-FIN-01"@, "10.0.2.21"@, "workstation"@, "Windows 11"@, "high"@, "Finance"@, "active"@)
    } else if i == 8 {
        ("asset-ws-eng12"@, "workstation-ENG-12"@, "10.0.3.22"@, "workstation"@, "Windows 11"@, "medium"@, "Engineering"@, "active"@)
    } else {
        ("asset-fw01"@, "firewall-01"@, "10.0.0.1"@, "network"@, "PfSense 2.7"@, "critical"@, "IT"@, "active"@)
    }
}

fn asset(
    id: &str,
    hostname: &str,
    ip_address: &str,
    asset_type: &str,
    os: &str,
    criticality: &str,
    department: &str,
    status: &str,
) -> (r: Asset)
    ensures
        asset_entry(r) == (id@, hostname@, ip_address@, asset_type@, os@, criticality@, department@, status@),
{
    Asset {
        id: owned(id),
        hostname: owned(hostname),
        ip_address: owned(ip_address),
        asset_type: owned(asset_type),
        os: owned(os),
        criticality: owned(criticality),
        department: owned(department),
        status: owned(status),
    }
}

fn default_asset_at(i: usize) -> (r: Asset)
    requires
        i < DEFAULT_ASSET_COUNT,
    ensures
        asset_entry(r) == default_asset(i as int),
{
    if i == 0 {
        asset("asset-dc01", "dc-server-01", "10.0.1.5", "server", "Windows Server 2022", "critical", "IT", "active")
    } else if i == 1 {
        asset("asset-web01", "web-prod-01", "10.0.1.10", "server", "Ubuntu 22.04", "high", "Engineering", "active")
    } else if i == 2 {
        asset("asset-db01", "db-server-01", "10.0.1.50", "server", "Windows Server 2019", "critical", "Engineering", "active")
    } else if i == 3 {
        asset("asset-file01", "file-server-01", "10.0.1.20", "server", "Windows Server 2022", "high", "IT", "active")
    } else if i == 4 {
        asset("asset-mail01", "mail-server-01", "10.0.1.30", "server", "Ubuntu 22.04", "high", "IT", "active")
    } else if i == 5 {
        asset("asset-backup01", "backup-server-01", "10.0.1.60", "server", "Ubuntu 22.04", "critical", "IT", "active")
    } else if i == 6 {
        asset("asset-ws-hr01", "workstation-HR-01", "10.0.2.15", "workstation", "Windows 11", "medium", "HR", "active")
    } else if i == 7 {
        asset("asset-ws-fin01", "workstation-FIN-01", "10.0.2.21", "workstation", "Windows 11", "high", "Finance", "active")
    } else if i == 8 {
        asset("asset-ws-eng12", "workstation-ENG-12", "10.0.3.22", "workstation", "Windows 11", "medium", "Engineering", "active")
    } else {
        asset("asset-fw01", "firewall-01", "10.0.0.1", "network", "PfSense 2.7", "critical", "IT", "active")
    }
}

/// The realistic network assets a fresh database is seeded with, in
/// order.
pub fn default_assets() -> (r: Vec<Asset>)
    ensures
        r@.len() == DEFAULT_ASSET_COUNT,
        forall|i: int| 0 <= i < DEFAULT_ASSET_COUNT ==> asset_entry(#[trigger] r@[i]) == default_asset(i),
{
    let mut r: Vec<Asset> = Vec::new();
    let mut i: usize = 0;
    while i < DEFAULT_ASSET_COUNT
        invariant
            i <= DEFAULT_ASSET_COUNT,
            r@.len() == i,
            forall|k: int| 0 <= k < i ==> asset_entry(#[trigger] r@[k]) == default_asset(k),
        decreases DEFAULT_ASSET_COUNT - i,
    {
        r.push(default_asset_at(i));
        i = i + 1;
    }
    r
}

/// Whether the default assets are to be seeded, given how many assets the
/// database lists (`None` where listing them failed): only into an empty
/// database, or where the listing failed.
pub fn should_seed_assets(existing: Option<usize>) -> (r: bool)
    ensures
        r == !(existing matches Some(n) && n > 0),
{
    match existing {
        Some(n) => n == 0,
        None => true,
    }
}

} // verus!
