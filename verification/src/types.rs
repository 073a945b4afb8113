//! The deployment request: where to deploy, which package to use, and the
//! assets that the RAMM starts with.

use vstd::prelude::*;
use vstd::string::*;

use crate::error::RAMMDeploymentError;
use crate::ledger::{ObjectID, SuiAddress};
use crate::paint::{
    cyan, cyan_code, green, green_code, on_bright_black, on_bright_black_code, paints, purple, purple_code,
};
use crate::text::{decimal, decimal_text, hex, hex_text, tabs, tabs_text, text_equal};

verus! {

/// Fewest decimal places that an asset may declare. A heuristic against
/// mistyped configurations, not a rule of the ledger.
pub const ASSET_MIN_DECIMAL_PLACES: u8 = 4;

/// What the RAMM needs to know of one asset in order to add it.
#[derive(Clone, Debug, PartialEq, Eq)]
pub struct AssetConfig {
    /// The asset's on-chain type, as its descriptor, e.g. `0x2::sui::SUI`.
    pub asset_type: String,
    /// Address of the aggregator object that prices the asset.
    pub aggregator_address: SuiAddress,
    pub minimum_trade_amount: u64,
    pub decimal_places: u8,
}

/// [`AssetConfig`] as a mathematical value.
pub ghost struct AssetConfigView {
    pub asset_type: Seq<char>,
    pub aggregator_address: SuiAddress,
    pub minimum_trade_amount: u64,
    pub decimal_places: u8,
}

impl View for AssetConfig {
    type V = AssetConfigView;

    open spec fn view(&self) -> AssetConfigView {
        AssetConfigView {
            asset_type: self.asset_type@,
            aggregator_address: self.aggregator_address,
            minimum_trade_amount: self.minimum_trade_amount,
            decimal_places: self.decimal_places,
        }
    }
}

/// The views of a list of assets, in order.
pub open spec fn asset_views(assets: Seq<AssetConfig>) -> Seq<AssetConfigView> {
    assets.map_values(|a: AssetConfig| a@)
}

/// Where the identifier of the RAMM package comes from.
#[derive(Clone, Debug, PartialEq, Eq)]
pub enum RAMMPkgAddrSrc {
    /// The package is already published; the configuration names it.
    FromTomlConfig(ObjectID),
    /// The package at this path is to be published, and its identifier taken
    /// from the result.
    FromPkgPublication(String),
}

/// [`RAMMPkgAddrSrc`] as a mathematical value.
pub ghost enum RAMMPkgAddrSrcView {
    FromTomlConfig(ObjectID),
    FromPkgPublication(Seq<char>),
}

impl View for RAMMPkgAddrSrc {
    type V = RAMMPkgAddrSrcView;

    open spec fn view(&self) -> RAMMPkgAddrSrcView {
        match *self {
            RAMMPkgAddrSrc::FromTomlConfig(id) => RAMMPkgAddrSrcView::FromTomlConfig(id),
            RAMMPkgAddrSrc::FromPkgPublication(path) => {
                RAMMPkgAddrSrcView::FromPkgPublication(path@)
            },
        }
    }
}

impl RAMMPkgAddrSrc {
    /// Reads the configured text as a package source. `parsed` is the text read
    /// as an object identifier, where it is one; any other text is a path.
    pub fn from_text(parsed: Option<ObjectID>, text: String) -> (source: RAMMPkgAddrSrc)
        ensures
            source@ == match parsed {
                Some(id) => RAMMPkgAddrSrcView::FromTomlConfig(id),
                None => RAMMPkgAddrSrcView::FromPkgPublication(text@),
            },
    {
        match parsed {
            Some(id) => RAMMPkgAddrSrc::FromTomlConfig(id),
            None => RAMMPkgAddrSrc::FromPkgPublication(text),
        }
    }
}

/// How a RAMM is to be deployed.
#[derive(Clone, Debug, PartialEq, Eq)]
pub struct RAMMDeploymentConfig {
    /// The network environment: `active`, `testnet` or `mainnet`.
    pub target_env: String,
    pub ramm_pkg_addr_or_path: RAMMPkgAddrSrc,
    /// Must equal the length of `assets`.
    pub asset_count: u8,
    pub fee_collection_address: SuiAddress,
    pub assets: Vec<AssetConfig>,
}

/// [`RAMMDeploymentConfig`] as a mathematical value.
pub ghost struct RAMMDeploymentConfigView {
    pub target_env: Seq<char>,
    pub ramm_pkg_addr_or_path: RAMMPkgAddrSrcView,
    pub asset_count: u8,
    pub fee_collection_address: SuiAddress,
    pub assets: Seq<AssetConfigView>,
}

impl View for RAMMDeploymentConfig {
    type V = RAMMDeploymentConfigView;

    open spec fn view(&self) -> RAMMDeploymentConfigView {
        RAMMDeploymentConfigView {
            target_env: self.target_env@,
            ramm_pkg_addr_or_path: self.ramm_pkg_addr_or_path@,
            asset_count: self.asset_count,
            fee_collection_address: self.fee_collection_address,
            assets: asset_views(self.assets@),
        }
    }
}

/// Whether `name` is one of the network environments that can be targeted.
pub open spec fn recognized_env(name: Seq<char>) -> bool {
    name == "active"@ || name == "testnet"@ || name == "mainnet"@
}

/// Whether every asset declares at least [`ASSET_MIN_DECIMAL_PLACES`].
pub open spec fn decimals_suffice(assets: Seq<AssetConfigView>) -> bool {
    forall|i: int|
        0 <= i < assets.len() ==> (#[trigger] assets[i]).decimal_places >= ASSET_MIN_DECIMAL_PLACES
}

impl RAMMDeploymentConfigView {
    /// A request is valid when the declared count is the number of assets
    /// listed, there is at least one asset, the environment is recognized, and
    /// every asset has enough decimal places.
    pub open spec fn valid(self) -> bool {
        &&& self.asset_count as int == self.assets.len()
        &&& self.asset_count > 0
        &&& recognized_env(self.target_env)
        &&& decimals_suffice(self.assets)
    }
}

/// Whether `name` is a recognized network environment.
pub fn is_recognized_env(name: &str) -> (known: bool)
    ensures
        known == recognized_env(name@),
{
    text_equal(name, "active") || text_equal(name, "testnet") || text_equal(name, "mainnet")
}

impl RAMMDeploymentConfig {
    /// Validates a deployment request. All of the checks run on every request,
    /// and a request that fails any of them is rejected.
    pub fn validate_ramm_cfg(&self) -> (ok: bool)
        ensures
            ok == self@.valid(),
    {
        let mut decimals_ok = true;
        let mut i: usize = 0;
        while i < self.assets.len()
            invariant
                i <= self.assets.len(),
                decimals_ok == decimals_suffice(asset_views(self.assets@.take(i as int))),
            decreases self.assets.len() - i,
        {
            let enough = self.assets[i].decimal_places >= ASSET_MIN_DECIMAL_PLACES;
            proof {
                let before = asset_views(self.assets@.take(i as int));
                let after = asset_views(self.assets@.take(i + 1));
                assert(after.len() == i + 1);
                assert(after[i as int] == self.assets@[i as int]@);
                assert forall|k: int| 0 <= k < i implies after[k] == before[k] by {}
                if decimals_ok && enough {
                    assert(decimals_suffice(after));
                } else if !enough {
                    assert(after[i as int].decimal_places < ASSET_MIN_DECIMAL_PLACES);
                } else {
                    let k = choose|k: int|
                        0 <= k < before.len() && (#[trigger] before[k]).decimal_places
                            < ASSET_MIN_DECIMAL_PLACES;
                    assert(after[k] == before[k]);
                }
            }
            decimals_ok = decimals_ok && enough;
            i += 1;
        }
        assert(self.assets@.take(i as int) =~= self.assets@);
        let count_ok = self.asset_count as usize == self.assets.len();
        count_ok && self.asset_count > 0 && is_recognized_env(self.target_env.as_str())
            && decimals_ok
    }

    /// Hands a valid request on, and rejects any other before anything is
    /// sent to the network.
    pub fn validated(self) -> (checked: Result<RAMMDeploymentConfig, RAMMDeploymentError>)
        ensures
            self@.valid() ==> checked == Ok::<RAMMDeploymentConfig, RAMMDeploymentError>(self),
            !self@.valid() ==> checked matches Err(RAMMDeploymentError::InvalidConfigData),
    {
        if self.validate_ramm_cfg() {
            Ok(self)
        } else {
            Err(RAMMDeploymentError::InvalidConfigData)
        }
    }
}

/// The labels of a displayed asset, each as it is written out.
#[derive(Clone, Debug, PartialEq, Eq)]
pub struct AssetLabels {
    pub heading: String,
    pub asset_type: String,
    pub aggregator_address: String,
    pub minimum_trade_amount: String,
    pub decimal_places: String,
}

/// [`AssetLabels`] as a mathematical value.
pub ghost struct AssetLabelsView {
    pub heading: Seq<char>,
    pub asset_type: Seq<char>,
    pub aggregator_address: Seq<char>,
    pub minimum_trade_amount: Seq<char>,
    pub decimal_places: Seq<char>,
}

impl View for AssetLabels {
    type V = AssetLabelsView;

    open spec fn view(&self) -> AssetLabelsView {
        AssetLabelsView {
            heading: self.heading@,
            asset_type: self.asset_type@,
            aggregator_address: self.aggregator_address@,
            minimum_trade_amount: self.minimum_trade_amount@,
            decimal_places: self.decimal_places@,
        }
    }
}

impl AssetLabelsView {
    /// The labels without colours.
    pub open spec fn plain() -> AssetLabelsView {
        AssetLabelsView {
            heading: "asset data"@,
            asset_type: "asset type"@,
            aggregator_address: "aggregator address"@,
            minimum_trade_amount: "minimum trade amount"@,
            decimal_places: "decimal places"@,
        }
    }

    /// Whether these are the labels of an asset as painted: the heading in
    /// purple and the names of the fields in cyan, or each plain where
    /// colours are off.
    pub open spec fn painted(self) -> bool {
        let plain = AssetLabelsView::plain();
        &&& paints(purple_code(), plain.heading, self.heading)
        &&& paints(cyan_code(), plain.asset_type, self.asset_type)
        &&& paints(cyan_code(), plain.aggregator_address, self.aggregator_address)
        &&& paints(cyan_code(), plain.minimum_trade_amount, self.minimum_trade_amount)
        &&& paints(cyan_code(), plain.decimal_places, self.decimal_places)
    }
}

impl AssetLabels {
    /// The labels without colours.
    pub fn plain() -> (labels: AssetLabels)
        ensures
            labels@ == AssetLabelsView::plain(),
    {
        AssetLabels {
            heading: String::from_str("asset data"),
            asset_type: String::from_str("asset type"),
            aggregator_address: String::from_str("aggregator address"),
            minimum_trade_amount: String::from_str("minimum trade amount"),
            decimal_places: String::from_str("decimal places"),
        }
    }

    /// The labels in the colours of the terminal, where it has any.
    pub fn painted() -> (labels: AssetLabels)
        ensures
            labels@.painted(),
    {
        proof {
            reveal_strlit("asset data");
            reveal_strlit("asset type");
            reveal_strlit("aggregator address");
            reveal_strlit("minimum trade amount");
            reveal_strlit("decimal places");
        }
        AssetLabels {
            heading: purple("asset data"),
            asset_type: cyan("asset type"),
            aggregator_address: cyan("aggregator address"),
            minimum_trade_amount: cyan("minimum trade amount"),
            decimal_places: cyan("decimal places"),
        }
    }
}

impl AssetConfigView {
    /// The asset as lines of text under the given labels: the heading,
    /// indented by one tab less than `tab_count`, then one line per field,
    /// indented by `tab_count`. The address is written in hexadecimal and the
    /// numbers in decimal.
    pub open spec fn text(self, tab_count: nat, labels: AssetLabelsView) -> Seq<char> {
        tabs_text((tab_count - 1) as nat) + labels.heading + ":\n"@ + tabs_text(tab_count)
            + labels.asset_type + ": "@ + self.asset_type + "\n"@ + tabs_text(tab_count)
            + labels.aggregator_address + ": "@ + hex_text(self.aggregator_address.bytes@) + "\n"@
            + tabs_text(tab_count) + labels.minimum_trade_amount + ": "@ + decimal_text(
            self.minimum_trade_amount as nat,
        ) + "\n"@ + tabs_text(tab_count) + labels.decimal_places + ": "@ + decimal_text(
            self.decimal_places as nat,
        ) + "\n"@
    }
}

impl AssetConfig {
    /// Writes the asset in human-readable form under the given labels, the
    /// heading indented by `tab_count - 1` tabs and the fields by `tab_count`.
    pub fn asset_cfg_layout(&self, tab_count: usize, labels: &AssetLabels) -> (text: String)
        requires
            tab_count >= 1,
        ensures
            text@ == self@.text(tab_count as nat, labels@),
    {
        let mut text = tabs(tab_count - 1);
        text.append(labels.heading.as_str());
        text.append(":\n");
        text.append(tabs(tab_count).as_str());
        text.append(labels.asset_type.as_str());
        text.append(": ");
        text.append(self.asset_type.as_str());
        text.append("\n");
        text.append(tabs(tab_count).as_str());
        text.append(labels.aggregator_address.as_str());
        text.append(": ");
        text.append(hex(&self.aggregator_address.bytes).as_str());
        text.append("\n");
        text.append(tabs(tab_count).as_str());
        text.append(labels.minimum_trade_amount.as_str());
        text.append(": ");
        text.append(decimal(self.minimum_trade_amount).as_str());
        text.append("\n");
        text.append(tabs(tab_count).as_str());
        text.append(labels.decimal_places.as_str());
        text.append(": ");
        text.append(decimal(self.decimal_places as u64).as_str());
        text.append("\n");
        text
    }

    /// Writes the asset in human-readable form, its labels in the colours of
    /// the terminal, the heading indented by `tab_count - 1` tabs and the
    /// fields by `tab_count`.
    pub fn asset_cfg_fmt(&self, tab_count: usize) -> (text: String)
        requires
            tab_count >= 1,
        ensures
            exists|labels: AssetLabelsView| labels.painted() && text@ == self@.text(tab_count as nat, labels),
    {
        let labels = AssetLabels::painted();
        self.asset_cfg_layout(tab_count, &labels)
    }
}

/// The texts of the first `count` assets under the given labels, one after
/// the other.
pub open spec fn assets_text(
    assets: Seq<AssetConfigView>,
    count: nat,
    tab_count: nat,
    labels: AssetLabelsView,
) -> Seq<char>
    decreases count,
{
    if count == 0 {
        Seq::empty()
    } else {
        assets_text(assets, (count - 1) as nat, tab_count, labels) + assets[count - 1].text(tab_count, labels)
    }
}

/// The labels of a displayed configuration, each as it is written out.
#[derive(Clone, Debug, PartialEq, Eq)]
pub struct ConfigLabels {
    pub title: String,
    pub target_env: String,
    pub fee_collection_address: String,
    pub assets: String,
    pub asset_count: String,
    pub package_address: String,
    pub package_path: String,
    pub end: String,
    pub asset: AssetLabels,
}

/// [`ConfigLabels`] as a mathematical value.
pub ghost struct ConfigLabelsView {
    pub title: Seq<char>,
    pub target_env: Seq<char>,
    pub fee_collection_address: Seq<char>,
    pub assets: Seq<char>,
    pub asset_count: Seq<char>,
    pub package_address: Seq<char>,
    pub package_path: Seq<char>,
    pub end: Seq<char>,
    pub asset: AssetLabelsView,
}

impl View for ConfigLabels {
    type V = ConfigLabelsView;

    open spec fn view(&self) -> ConfigLabelsView {
        ConfigLabelsView {
            title: self.title@,
            target_env: self.target_env@,
            fee_collection_address: self.fee_collection_address@,
            assets: self.assets@,
            asset_count: self.asset_count@,
            package_address: self.package_address@,
            package_path: self.package_path@,
            end: self.end@,
            asset: self.asset@,
        }
    }
}

impl ConfigLabelsView {
    /// The labels without colours.
    pub open spec fn plain() -> ConfigLabelsView {
        ConfigLabelsView {
            title: "RAMM Deployment Configuration"@,
            target_env: "Target environment"@,
            fee_collection_address: "Fee collection address"@,
            assets: "List of assets"@,
            asset_count: "Asset count"@,
            package_address: "RAMM package address"@,
            package_path: "RAMM package ID to be obtained from publishing library at path"@,
            end: "End of RAMM Deployment Configuration"@,
            asset: AssetLabelsView::plain(),
        }
    }

    /// Whether these are the labels of a configuration as painted: the first
    /// and the last line on a bright black background, the names of the
    /// fields in green, and the labels of the assets as they are painted; or
    /// each plain where colours are off.
    pub open spec fn painted(self) -> bool {
        let plain = ConfigLabelsView::plain();
        &&& paints(on_bright_black_code(), plain.title, self.title)
        &&& paints(green_code(), plain.target_env, self.target_env)
        &&& paints(green_code(), plain.fee_collection_address, self.fee_collection_address)
        &&& paints(green_code(), plain.assets, self.assets)
        &&& paints(green_code(), plain.asset_count, self.asset_count)
        &&& paints(green_code(), plain.package_address, self.package_address)
        &&& paints(green_code(), plain.package_path, self.package_path)
        &&& paints(on_bright_black_code(), plain.end, self.end)
        &&& self.asset.painted()
    }
}

impl ConfigLabels {
    /// The labels without colours.
    pub fn plain() -> (labels: ConfigLabels)
        ensures
            labels@ == ConfigLabelsView::plain(),
    {
        ConfigLabels {
            title: String::from_str("RAMM Deployment Configuration"),
            target_env: String::from_str("Target environment"),
            fee_collection_address: String::from_str("Fee collection address"),
            assets: String::from_str("List of assets"),
            asset_count: String::from_str("Asset count"),
            package_address: String::from_str("RAMM package address"),
            package_path: String::from_str("RAMM package ID to be obtained from publishing library at path"),
            end: String::from_str("End of RAMM Deployment Configuration"),
            asset: AssetLabels::plain(),
        }
    }

    /// The labels in the colours of the terminal, where it has any.
    pub fn painted() -> (labels: ConfigLabels)
        ensures
            labels@.painted(),
    {
        proof {
            reveal_strlit("RAMM Deployment Configuration");
            reveal_strlit("Target environment");
            reveal_strlit("Fee collection address");
            reveal_strlit("List of assets");
            reveal_strlit("Asset count");
            reveal_strlit("RAMM package address");
            reveal_strlit("RAMM package ID to be obtained from publishing library at path");
            reveal_strlit("End of RAMM Deployment Configuration");
        }
        ConfigLabels {
            title: on_bright_black("RAMM Deployment Configuration"),
            target_env: green("Target environment"),
            fee_collection_address: green("Fee collection address"),
            assets: green("List of assets"),
            asset_count: green("Asset count"),
            package_address: green("RAMM package address"),
            package_path: green("RAMM package ID to be obtained from publishing library at path"),
            end: on_bright_black("End of RAMM Deployment Configuration"),
            asset: AssetLabels::painted(),
        }
    }
}

impl RAMMDeploymentConfigView {
    /// The line that says where the package comes from.
    pub open spec fn package_text(self, labels: ConfigLabelsView) -> Seq<char> {
        match self.ramm_pkg_addr_or_path {
            RAMMPkgAddrSrcView::FromTomlConfig(id) => "\t"@ + labels.package_address + ": "@ + hex_text(
                id.bytes@,
            ) + "\n"@,
            RAMMPkgAddrSrcView::FromPkgPublication(path) => "\t"@ + labels.package_path + ": "@ + path + "\n"@,
        }
    }

    /// The configuration as text under the given labels: the title; the
    /// target environment, the fee collection address, the heading of the
    /// asset list and the asset count, each indented by one tab; every asset,
    /// its heading indented by two tabs and its fields by three; the source of
    /// the package; and the closing line.
    pub open spec fn text(self, labels: ConfigLabelsView) -> Seq<char> {
        labels.title + ":\n"@ + "\t"@ + labels.target_env + ": "@ + self.target_env + "\n"@ + "\t"@
            + labels.fee_collection_address + ": "@ + hex_text(self.fee_collection_address.bytes@) + "\n"@
            + "\t"@ + labels.assets + ":\n"@ + "\t"@ + labels.asset_count + ": "@ + decimal_text(
            self.asset_count as nat,
        ) + "\n"@ + assets_text(self.assets, self.assets.len(), 3, labels.asset) + self.package_text(labels)
            + labels.end + "\n"@
    }
}

impl RAMMDeploymentConfig {
    /// Writes the configuration in human-readable form under the given
    /// labels, nested data indented under its heading.
    pub fn layout(&self, labels: &ConfigLabels) -> (text: String)
        ensures
            text@ == self@.text(labels@),
    {
        let mut text = labels.title.clone();
        text.append(":\n");
        text.append("\t");
        text.append(labels.target_env.as_str());
        text.append(": ");
        text.append(self.target_env.as_str());
        text.append("\n");
        text.append("\t");
        text.append(labels.fee_collection_address.as_str());
        text.append(": ");
        text.append(hex(&self.fee_collection_address.bytes).as_str());
        text.append("\n");
        text.append("\t");
        text.append(labels.assets.as_str());
        text.append(":\n");
        text.append("\t");
        text.append(labels.asset_count.as_str());
        text.append(": ");
        text.append(decimal(self.asset_count as u64).as_str());
        text.append("\n");
        let ghost head = text@;
        let mut i: usize = 0;
        while i < self.assets.len()
            invariant
                i <= self.assets.len(),
                text@ == head + assets_text(self@.assets, i as nat, 3, labels@.asset),
            decreases self.assets.len() - i,
        {
            let asset = self.assets[i].asset_cfg_layout(3, &labels.asset);
            proof {
                assert(self@.assets[i as int] == self.assets@[i as int]@);
                assert(text@ + asset@ =~= head + assets_text(self@.assets, (i + 1) as nat, 3, labels@.asset));
            }
            text.append(asset.as_str());
            i += 1;
        }
        match &self.ramm_pkg_addr_or_path {
            RAMMPkgAddrSrc::FromTomlConfig(id) => {
                text.append("\t");
                text.append(labels.package_address.as_str());
                text.append(": ");
                text.append(hex(&id.bytes).as_str());
                text.append("\n");
            },
            RAMMPkgAddrSrc::FromPkgPublication(path) => {
                text.append("\t");
                text.append(labels.package_path.as_str());
                text.append(": ");
                text.append(path.as_str());
                text.append("\n");
            },
        }
        text.append(labels.end.as_str());
        text.append("\n");
        text
    }

    /// Writes the configuration in human-readable form, its labels in the
    /// colours of the terminal.
    pub fn to_text(&self) -> (text: String)
        ensures
            exists|labels: ConfigLabelsView| labels.painted() && text@ == self@.text(labels),
    {
        let labels = ConfigLabels::painted();
        self.layout(&labels)
    }
}

} // verus!
