//! The deployment configuration of a RAMM whose assets come from a faucet.
//! Every value in it is text or a number, and it is only ever displayed.

use vstd::prelude::*;
use vstd::string::*;

use crate::text::{decimal, decimal_text, tabs, tabs_text};

verus! {

/// The faucet whose tokens the RAMM uses.
#[derive(Clone, Debug, PartialEq, Eq)]
pub struct FaucetData {
    pub package_id: String,
    pub module_name: String,
}

/// [`FaucetData`] as a mathematical value.
pub ghost struct FaucetDataView {
    pub package_id: Seq<char>,
    pub module_name: Seq<char>,
}

impl View for FaucetData {
    type V = FaucetDataView;

    open spec fn view(&self) -> FaucetDataView {
        FaucetDataView { package_id: self.package_id@, module_name: self.module_name@ }
    }
}

impl FaucetDataView {
    /// The faucet's data as lines of text: a heading indented by one tab less
    /// than `tab_count`, then one line per field, indented by `tab_count`.
    pub open spec fn text(self, tab_count: nat) -> Seq<char> {
        tabs_text((tab_count - 1) as nat) + "faucet data:\n"@ + tabs_text(tab_count) + "package ID: "@
            + self.package_id + "\n"@ + tabs_text(tab_count) + "module name: "@ + self.module_name + "\n"@
    }
}

impl FaucetData {
    /// Writes the faucet's data in human-readable form, the heading indented
    /// by `tab_count - 1` tabs and the fields by `tab_count`.
    pub fn faucet_data_fmt(&self, tab_count: usize) -> (text: String)
        requires
            tab_count >= 1,
        ensures
            text@ == self@.text(tab_count as nat),
    {
        let mut text = tabs(tab_count - 1);
        text.append("faucet data:\n");
        text.append(tabs(tab_count).as_str());
        text.append("package ID: ");
        text.append(self.package_id.as_str());
        text.append("\n");
        text.append(tabs(tab_count).as_str());
        text.append("module name: ");
        text.append(self.module_name.as_str());
        text.append("\n");
        text
    }
}

/// One asset of the RAMM.
#[derive(Clone, Debug, PartialEq, Eq)]
pub struct AssetConfig {
    pub asset_name: String,
    pub aggregator_address: String,
    pub minimum_trade_amount: u64,
    pub decimal_places: u8,
}

/// [`AssetConfig`] as a mathematical value.
pub ghost struct AssetConfigView {
    pub asset_name: Seq<char>,
    pub aggregator_address: Seq<char>,
    pub minimum_trade_amount: u64,
    pub decimal_places: u8,
}

impl View for AssetConfig {
    type V = AssetConfigView;

    open spec fn view(&self) -> AssetConfigView {
        AssetConfigView {
            asset_name: self.asset_name@,
            aggregator_address: self.aggregator_address@,
            minimum_trade_amount: self.minimum_trade_amount,
            decimal_places: self.decimal_places,
        }
    }
}

impl AssetConfigView {
    /// The asset's data as lines of text: a heading indented by one tab less
    /// than `tab_count`, then one line per field, indented by `tab_count`.
    pub open spec fn text(self, tab_count: nat) -> Seq<char> {
        tabs_text((tab_count - 1) as nat) + "asset data:\n"@ + tabs_text(tab_count) + "asset name: "@
            + self.asset_name + "\n"@ + tabs_text(tab_count) + "aggregator address: "@
            + self.aggregator_address + "\n"@ + tabs_text(tab_count) + "minimum trade amount: "@
            + decimal_text(self.minimum_trade_amount as nat) + "\n"@ + tabs_text(tab_count)
            + "decimal places: "@ + decimal_text(self.decimal_places as nat) + "\n"@
    }
}

impl AssetConfig {
    /// Writes the asset's data in human-readable form, the heading indented by
    /// `tab_count - 1` tabs and the fields by `tab_count`.
    pub fn asset_cfg_fmt(&self, tab_count: usize) -> (text: String)
        requires
            tab_count >= 1,
        ensures
            text@ == self@.text(tab_count as nat),
    {
        let mut text = tabs(tab_count - 1);
        text.append("asset data:\n");
        text.append(tabs(tab_count).as_str());
        text.append("asset name: ");
        text.append(self.asset_name.as_str());
        text.append("\n");
        text.append(tabs(tab_count).as_str());
        text.append("aggregator address: ");
        text.append(self.aggregator_address.as_str());
        text.append("\n");
        text.append(tabs(tab_count).as_str());
        text.append("minimum trade amount: ");
        text.append(decimal(self.minimum_trade_amount).as_str());
        text.append("\n");
        text.append(tabs(tab_count).as_str());
        text.append("decimal places: ");
        text.append(decimal(self.decimal_places as u64).as_str());
        text.append("\n");
        text
    }
}

/// The texts of the first `count` assets, one after the other.
pub open spec fn assets_text(assets: Seq<AssetConfigView>, count: nat, tab_count: nat) -> Seq<char>
    decreases count,
{
    if count == 0 {
        Seq::empty()
    } else {
        assets_text(assets, (count - 1) as nat, tab_count) + assets[count - 1].text(tab_count)
    }
}

/// How a RAMM is to be deployed.
#[derive(Clone, Debug, PartialEq, Eq)]
pub struct RAMMDeploymentConfig {
    pub faucet_data: FaucetData,
    pub asset_count: u8,
    pub fee_collection_address: String,
    pub assets: Vec<AssetConfig>,
}

/// [`RAMMDeploymentConfig`] as a mathematical value.
pub ghost struct RAMMDeploymentConfigView {
    pub faucet_data: FaucetDataView,
    pub asset_count: u8,
    pub fee_collection_address: Seq<char>,
    pub assets: Seq<AssetConfigView>,
}

impl View for RAMMDeploymentConfig {
    type V = RAMMDeploymentConfigView;

    open spec fn view(&self) -> RAMMDeploymentConfigView {
        RAMMDeploymentConfigView {
            faucet_data: self.faucet_data@,
            asset_count: self.asset_count,
            fee_collection_address: self.fee_collection_address@,
            assets: self.assets@.map_values(|a: AssetConfig| a@),
        }
    }
}

impl RAMMDeploymentConfigView {
    /// The configuration as text: a title, the assets under their heading,
    /// the faucet, the fee collection address and the asset count. The last
    /// line has no line feed.
    pub open spec fn text(self) -> Seq<char> {
        "RAMM Deployment Configuration:\n"@ + "\tasset list:\n"@ + assets_text(self.assets, self.assets.len(), 3)
            + self.faucet_data.text(2) + "\tfee collection address: "@ + self.fee_collection_address + "\n"@
            + "\tasset count: "@ + decimal_text(self.asset_count as nat)
    }
}

impl RAMMDeploymentConfig {
    /// Writes the configuration in human-readable form, nested data indented
    /// under its heading.
    pub fn to_text(&self) -> (text: String)
        ensures
            text@ == self@.text(),
    {
        let mut text = String::from_str("RAMM Deployment Configuration:\n");
        text.append("\tasset list:\n");
        let ghost head = text@;
        let mut i: usize = 0;
        while i < self.assets.len()
            invariant
                i <= self.assets.len(),
                head == "RAMM Deployment Configuration:\n"@ + "\tasset list:\n"@,
                text@ == head + assets_text(self@.assets, i as nat, 3),
            decreases self.assets.len() - i,
        {
            let asset = self.assets[i].asset_cfg_fmt(3);
            proof {
                assert(self@.assets[i as int] == self.assets@[i as int]@);
                assert(text@ + asset@ =~= head + assets_text(self@.assets, (i + 1) as nat, 3));
            }
            text.append(asset.as_str());
            i += 1;
        }
        text.append(self.faucet_data.faucet_data_fmt(2).as_str());
        text.append("\tfee collection address: ");
        text.append(self.fee_collection_address.as_str());
        text.append("\n");
        text.append("\tasset count: ");
        text.append(decimal(self.asset_count as u64).as_str());
        text
    }
}

} // verus!
