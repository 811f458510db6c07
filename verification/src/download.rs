//! Finding the download URLs of an app version: the decisions between the
//! details, purchase and delivery requests, and the reading of the delivery.
use vstd::prelude::*;

use crate::error::{Error, ErrorKind};
use crate::gpapi::{is_kind, opt_view, Gpapi};
use crate::text::{dec_int, i64_to_string, push_str};

verus! {

/// The URL of the main APK.
pub type MainAPKDownloadURL = Option<String>;

/// The names and URLs of the split APKs.
pub type SplitsDownloadInfo = Vec<(Option<String>, Option<String>)>;

/// The file names and URLs of the expansion files.
pub type AdditionalFilesDownloadInfo = Vec<(Option<String>, Option<String>)>;

/// The URL of the dex metadata file.
pub type DexMetadataURL = Option<String>;

/// Everything needed to download one version of an app.
pub type DownloadInfo = (
    MainAPKDownloadURL,
    SplitsDownloadInfo,
    AdditionalFilesDownloadInfo,
    DexMetadataURL,
);

/// One split APK of a delivery.
pub struct SplitDelivery {
    pub name: Option<String>,
    pub download_url: Option<String>,
}

/// One expansion file of a delivery.
pub struct AdditionalFile {
    pub file_type: Option<i32>,
    pub version_code: Option<i32>,
    pub download_url: Option<String>,
}

/// What a delivery reply says of the files of an app version.
pub struct AppDeliveryData {
    pub download_url: Option<String>,
    pub splits: Vec<SplitDelivery>,
    pub additional_files: Vec<AdditionalFile>,
    pub dex_metadata_url: Option<String>,
}

/// The character views of a name-URL pair.
pub open spec fn pair_view(p: (Option<String>, Option<String>)) -> (Option<Seq<char>>, Option<Seq<char>>) {
    (opt_view(p.0), opt_view(p.1))
}

/// The character views of a list of name-URL pairs.
pub open spec fn pairs_view(v: Seq<(Option<String>, Option<String>)>) -> Seq<
    (Option<Seq<char>>, Option<Seq<char>>),
> {
    v.map_values(|p: (Option<String>, Option<String>)| pair_view(p))
}

/// The file name of an expansion file: `main` for type 0 and `patch`
/// otherwise, then the version code and the package, as `main.12.pkg.obb`.
pub open spec fn obb_file_name(file_type: i32, version_code: i32, pkg_name: Seq<char>) -> Seq<char> {
    (if file_type == 0 {
        "main"@
    } else {
        "patch"@
    }) + "."@ + dec_int(version_code as int) + "."@ + pkg_name + ".obb"@
}

/// The expansion files of a delivery that have a type and a version code,
/// named, in the delivery's order.
pub open spec fn additional_files_spec(pkg_name: Seq<char>, files: Seq<AdditionalFile>) -> Seq<
    (Option<Seq<char>>, Option<Seq<char>>),
>
    decreases files.len(),
{
    if files.len() == 0 {
        Seq::empty()
    } else {
        let rest = additional_files_spec(pkg_name, files.drop_last());
        let f = files.last();
        if f.file_type is Some && f.version_code is Some {
            rest.push(
                (
                    Some(obb_file_name(f.file_type->0, f.version_code->0, pkg_name)),
                    opt_view(f.download_url),
                ),
            )
        } else {
            rest
        }
    }
}

/// The name and URL of each split, in the delivery's order.
pub open spec fn splits_spec(splits: Seq<SplitDelivery>) -> Seq<(Option<Seq<char>>, Option<Seq<char>>)> {
    splits.map_values(|s: SplitDelivery| (opt_view(s.name), opt_view(s.download_url)))
}

/// Every split of a delivery is listed, once and in order, as its name and
/// download URL.
pub proof fn lemma_every_split_listed(splits: Seq<SplitDelivery>)
    ensures
        splits_spec(splits).len() == splits.len(),
        forall|i: int|
            0 <= i < splits.len() ==> #[trigger] splits_spec(splits)[i] == (
                opt_view(splits[i].name),
                opt_view(splits[i].download_url),
            ),
{
}

/// Whether an expansion file has what its name is made of.
pub open spec fn nameable(f: AdditionalFile) -> bool {
    f.file_type is Some && f.version_code is Some
}

/// The name and URL under which an expansion file is listed.
pub open spec fn listed_file(pkg_name: Seq<char>, f: AdditionalFile) -> (Option<Seq<char>>, Option<Seq<char>>) {
    (Some(obb_file_name(f.file_type->0, f.version_code->0, pkg_name)), opt_view(f.download_url))
}

/// The expansion files listed are exactly those of the delivery that have a
/// type and a version code, each under its name, in the delivery's order.
pub proof fn lemma_files_listed(pkg_name: Seq<char>, files: Seq<AdditionalFile>)
    ensures
        additional_files_spec(pkg_name, files) == files.filter(|f: AdditionalFile| nameable(f)).map_values(
            |f: AdditionalFile| listed_file(pkg_name, f),
        ),
    decreases files.len(),
{
    reveal(Seq::filter);
    let pred = |f: AdditionalFile| nameable(f);
    let g = |f: AdditionalFile| listed_file(pkg_name, f);
    if files.len() == 0 {
        assert(files.filter(pred) =~= Seq::<AdditionalFile>::empty());
        assert(files.filter(pred).map_values(g) =~= Seq::<(Option<Seq<char>>, Option<Seq<char>>)>::empty());
    } else {
        lemma_files_listed(pkg_name, files.drop_last());
        let sub = files.drop_last().filter(pred);
        if pred(files.last()) {
            assert(files.filter(pred) == sub.push(files.last()));
            assert(sub.push(files.last()).map_values(g) =~= sub.map_values(g).push(g(files.last())));
        } else {
            assert(files.filter(pred) == sub);
        }
    }
}

fn obb_name(file_type: i32, version_code: i32, pkg_name: &str) -> (r: String)
    ensures
        r@ == obb_file_name(file_type, version_code, pkg_name@),
{
    let mut r = if file_type == 0 {
        "main".to_owned()
    } else {
        "patch".to_owned()
    };
    push_str(&mut r, ".");
    push_str(&mut r, i64_to_string(version_code as i64).as_str());
    push_str(&mut r, ".");
    push_str(&mut r, pkg_name);
    push_str(&mut r, ".obb");
    r
}

/// Reads the download information of `pkg_name` out of a delivery: the main
/// APK URL, every split, the expansion files that have a type and a version
/// code (named after them), and the dex metadata URL.
pub fn download_info_from_delivery(pkg_name: &str, data: AppDeliveryData) -> (r: DownloadInfo)
    ensures
        opt_view(r.0) == opt_view(data.download_url),
        pairs_view(r.1@) == splits_spec(data.splits@),
        pairs_view(r.2@) == additional_files_spec(pkg_name@, data.additional_files@),
        opt_view(r.3) == opt_view(data.dex_metadata_url),
        // every split, in order, as its name and URL
        r.1@.len() == data.splits@.len(),
        forall|i: int|
            0 <= i < data.splits@.len() ==> #[trigger] pair_view(r.1@[i]) == (
                opt_view(data.splits@[i].name),
                opt_view(data.splits@[i].download_url),
            ),
        // the expansion files that have a type and a version code, in order
        pairs_view(r.2@) == data.additional_files@.filter(|f: AdditionalFile| nameable(f)).map_values(
            |f: AdditionalFile| listed_file(pkg_name@, f),
        ),
{
    proof {
        lemma_every_split_listed(data.splits@);
        lemma_files_listed(pkg_name@, data.additional_files@);
    }
    let AppDeliveryData { download_url, splits: split_data, additional_files: files, dex_metadata_url } =
        data;
    let mut splits: Vec<(Option<String>, Option<String>)> = Vec::new();
    for i in 0..split_data.len()
        invariant
            pairs_view(splits@) == splits_spec(split_data@.take(i as int)),
    {
        let s = &split_data[i];
        let ghost before = splits@;
        splits.push((crate::gpapi::clone_opt(&s.name), crate::gpapi::clone_opt(&s.download_url)));
        assert(split_data@.take(i + 1) == split_data@.take(i as int).push(split_data@[i as int]));
        assert(pairs_view(splits@) =~= pairs_view(before).push(pair_view(splits@[i as int])));
        assert(pairs_view(splits@) =~= splits_spec(split_data@.take(i + 1)));
    }
    assert(split_data@.take(split_data.len() as int) == split_data@);
    let mut additional_files: Vec<(Option<String>, Option<String>)> = Vec::new();
    for i in 0..files.len()
        invariant
            pairs_view(additional_files@) == additional_files_spec(pkg_name@, files@.take(i as int)),
    {
        let f = &files[i];
        assert(files@.take(i + 1).drop_last() == files@.take(i as int));
        if let (Some(file_type), Some(version_code)) = (f.file_type, f.version_code) {
            additional_files.push(
                (Some(obb_name(file_type, version_code, pkg_name)), crate::gpapi::clone_opt(&f.download_url)),
            );
            assert(pairs_view(additional_files@) =~= additional_files_spec(pkg_name@, files@.take(i + 1)));
        }
    }
    assert(files@.take(files.len() as int) == files@);
    assert forall|i: int| 0 <= i < splits@.len() implies #[trigger] pair_view(splits@[i]) == pairs_view(splits@)[i] by {}
    (download_url, splits, additional_files, dex_metadata_url)
}

/// What a download lookup does next.
pub enum DownloadStep {
    /// Ask for the app's details, to learn its latest version.
    SendDetails,
    /// Buy this version (free apps cost nothing).
    SendPurchase { version_code: i64 },
    /// Ask for the delivery of this version, with the purchase's token.
    SendDelivery { version_code: i64, delivery_token: String },
    /// The lookup succeeded.
    Done(DownloadInfo),
    /// The lookup failed with this error.
    Failed(Error),
}

/// A reply to the outstanding request of a download lookup, or its failure.
pub enum DownloadEvent {
    /// The version code that the details reply names, if it names one.
    Details(Option<i64>),
    /// The delivery token of the purchase reply, if it has one.
    Purchase(Option<String>),
    /// The delivery data of the delivery reply, if it has some.
    Delivery(Option<AppDeliveryData>),
    /// The outstanding request could not be made or answered.
    Failed(Error),
}

/// Which reply a download lookup waits for.
#[derive(PartialEq, Eq, Structural, Clone, Copy)]
pub enum DownloadStage {
    AwaitDetails,
    AwaitPurchase,
    AwaitDelivery,
    Finished,
}

/// Where a download lookup stands.
pub struct DownloadFlow {
    pkg_name: String,
    version_code: i64,
    stage: DownloadStage,
}

impl DownloadFlow {
    /// The reply the lookup waits for.
    pub closed spec fn stage(&self) -> DownloadStage {
        self.stage
    }

    /// The package being looked up.
    pub closed spec fn pkg_name(&self) -> Seq<char> {
        self.pkg_name@
    }

    /// The version being looked up, once known.
    pub closed spec fn version_code(&self) -> i64 {
        self.version_code
    }

    /// Starts looking up version `version_code` of `pkg_name`, or its latest
    /// version when none is given. Needs a logged-in session.
    pub fn start(session: &Gpapi, pkg_name: &str, version_code: Option<i64>) -> (r: (Self, DownloadStep))
        ensures
            r.0.pkg_name() == pkg_name@,
            session@.auth_token is None ==> (r.1 matches DownloadStep::Failed(e) && is_kind(e, ErrorKind::LoginRequired))
                && r.0.stage() == DownloadStage::Finished,
            session@.auth_token is Some ==> match version_code {
                Some(v) => r.1 == (DownloadStep::SendPurchase { version_code: v }) && r.0.stage()
                    == DownloadStage::AwaitPurchase && r.0.version_code() == v,
                None => r.1 is SendDetails && r.0.stage() == DownloadStage::AwaitDetails,
            },
    {
        let pkg = pkg_name.to_owned();
        if !session.is_logged_in() {
            return (
                DownloadFlow { pkg_name: pkg, version_code: 0, stage: DownloadStage::Finished },
                DownloadStep::Failed(Error::new(ErrorKind::LoginRequired)),
            );
        }
        match version_code {
            Some(v) => (
                DownloadFlow { pkg_name: pkg, version_code: v, stage: DownloadStage::AwaitPurchase },
                DownloadStep::SendPurchase { version_code: v },
            ),
            None => (
                DownloadFlow { pkg_name: pkg, version_code: 0, stage: DownloadStage::AwaitDetails },
                DownloadStep::SendDetails,
            ),
        }
    }

    /// The package being looked up.
    pub fn package(&self) -> (r: &str)
        ensures
            r@ == self.pkg_name(),
    {
        self.pkg_name.as_str()
    }

    /// Takes the reply to the outstanding request and says what to do next.
    /// A missing version, delivery token or delivery data ends the lookup with
    /// `InvalidApp`; a reply that does not fit the stage, or comes after the
    /// end, ends it with `InvalidResponse`.
    pub fn step(&mut self, event: DownloadEvent) -> (r: DownloadStep)
        ensures
            final(self).pkg_name() == old(self).pkg_name(),
            r is Done || r is Failed <==> final(self).stage() == DownloadStage::Finished,
            r is SendDetails ==> false,
            old(self).stage() == DownloadStage::AwaitDetails ==> match event {
                DownloadEvent::Details(Some(v)) => r == (DownloadStep::SendPurchase { version_code: v })
                    && final(self).stage() == DownloadStage::AwaitPurchase && final(self).version_code() == v,
                DownloadEvent::Details(None) => r matches DownloadStep::Failed(e) && is_kind(e, ErrorKind::InvalidApp),
                DownloadEvent::Failed(e) => r == DownloadStep::Failed(e),
                _ => r matches DownloadStep::Failed(e) && is_kind(e, ErrorKind::InvalidResponse),
            },
            old(self).stage() == DownloadStage::AwaitPurchase ==> match event {
                DownloadEvent::Purchase(Some(t)) => (r matches DownloadStep::SendDelivery { version_code, delivery_token }
                    && version_code == old(self).version_code() && delivery_token@ == t@)
                    && final(self).stage() == DownloadStage::AwaitDelivery && final(self).version_code()
                    == old(self).version_code(),
                DownloadEvent::Purchase(None) => r matches DownloadStep::Failed(e) && is_kind(e, ErrorKind::InvalidApp),
                DownloadEvent::Failed(e) => r == DownloadStep::Failed(e),
                _ => r matches DownloadStep::Failed(e) && is_kind(e, ErrorKind::InvalidResponse),
            },
            old(self).stage() == DownloadStage::AwaitDelivery ==> match event {
                DownloadEvent::Delivery(Some(d)) => r matches DownloadStep::Done(info) && {
                    &&& opt_view(info.0) == opt_view(d.download_url)
                    &&& pairs_view(info.1@) == splits_spec(d.splits@)
                    &&& pairs_view(info.2@) == additional_files_spec(old(self).pkg_name(), d.additional_files@)
                    &&& opt_view(info.3) == opt_view(d.dex_metadata_url)
                },
                DownloadEvent::Delivery(None) => r matches DownloadStep::Failed(e) && is_kind(e, ErrorKind::InvalidApp),
                DownloadEvent::Failed(e) => r == DownloadStep::Failed(e),
                _ => r matches DownloadStep::Failed(e) && is_kind(e, ErrorKind::InvalidResponse),
            },
            old(self).stage() == DownloadStage::Finished ==> (r matches DownloadStep::Failed(e) && is_kind(
                e,
                ErrorKind::InvalidResponse,
            )),
    {
        match self.stage {
            DownloadStage::AwaitDetails => match event {
                DownloadEvent::Details(Some(v)) => {
                    self.version_code = v;
                    self.stage = DownloadStage::AwaitPurchase;
                    DownloadStep::SendPurchase { version_code: v }
                },
                DownloadEvent::Details(None) => self.fail(Error::new(ErrorKind::InvalidApp)),
                DownloadEvent::Failed(e) => self.fail(e),
                _ => self.fail(Error::new(ErrorKind::InvalidResponse)),
            },
            DownloadStage::AwaitPurchase => match event {
                DownloadEvent::Purchase(Some(token)) => {
                    self.stage = DownloadStage::AwaitDelivery;
                    DownloadStep::SendDelivery { version_code: self.version_code, delivery_token: token }
                },
                DownloadEvent::Purchase(None) => self.fail(Error::new(ErrorKind::InvalidApp)),
                DownloadEvent::Failed(e) => self.fail(e),
                _ => self.fail(Error::new(ErrorKind::InvalidResponse)),
            },
            DownloadStage::AwaitDelivery => match event {
                DownloadEvent::Delivery(Some(data)) => {
                    self.stage = DownloadStage::Finished;
                    DownloadStep::Done(download_info_from_delivery(self.pkg_name.as_str(), data))
                },
                DownloadEvent::Delivery(None) => self.fail(Error::new(ErrorKind::InvalidApp)),
                DownloadEvent::Failed(e) => self.fail(e),
                _ => self.fail(Error::new(ErrorKind::InvalidResponse)),
            },
            DownloadStage::Finished => DownloadStep::Failed(Error::new(ErrorKind::InvalidResponse)),
        }
    }

    fn fail(&mut self, e: Error) -> (r: DownloadStep)
        ensures
            r == DownloadStep::Failed(e),
            final(self).stage == DownloadStage::Finished,
            final(self).pkg_name == old(self).pkg_name,
            final(self).version_code == old(self).version_code,
    {
        self.stage = DownloadStage::Finished;
        DownloadStep::Failed(e)
    }
}

} // verus!
