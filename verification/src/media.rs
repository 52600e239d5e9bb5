//! Media types: which kind of message a body holds.

use vstd::prelude::*;
use crate::endpoint::text_is;
use crate::messages::DapVersion;

verus! {

/// The kind of message that a body holds.
#[derive(Debug)]
pub enum DapMediaType {
    AggregationJobInitReq,
    AggregationJobResp,
    AggregationJobContinueReq,
    /// Only the older version has a response of its own to a continuation.
    Draft02AggregateContinueResp,
    AggregateShareReq,
    AggregateShare,
    CollectReq,
    Collection,
    HpkeConfigList,
    Report,
    /// The message names no media type.
    Missing,
    /// The message names a media type that the version does not know.
    Invalid(String),
}

/// A media type as plain values.
pub enum MediaKind {
    AggregationJobInitReq,
    AggregationJobResp,
    AggregationJobContinueReq,
    Draft02AggregateContinueResp,
    AggregateShareReq,
    AggregateShare,
    CollectReq,
    Collection,
    HpkeConfigList,
    Report,
    Missing,
    Invalid(Seq<char>),
}

impl View for DapMediaType {
    type V = MediaKind;

    open spec fn view(&self) -> MediaKind {
        match self {
            DapMediaType::AggregationJobInitReq => MediaKind::AggregationJobInitReq,
            DapMediaType::AggregationJobResp => MediaKind::AggregationJobResp,
            DapMediaType::AggregationJobContinueReq => MediaKind::AggregationJobContinueReq,
            DapMediaType::Draft02AggregateContinueResp => MediaKind::Draft02AggregateContinueResp,
            DapMediaType::AggregateShareReq => MediaKind::AggregateShareReq,
            DapMediaType::AggregateShare => MediaKind::AggregateShare,
            DapMediaType::CollectReq => MediaKind::CollectReq,
            DapMediaType::Collection => MediaKind::Collection,
            DapMediaType::HpkeConfigList => MediaKind::HpkeConfigList,
            DapMediaType::Report => MediaKind::Report,
            DapMediaType::Missing => MediaKind::Missing,
            DapMediaType::Invalid(text) => MediaKind::Invalid(text@),
        }
    }
}

/// The media type that a text names in the older version.
pub open spec fn draft02_kind(text: Seq<char>) -> MediaKind {
    if text == "application/dap-aggregate-initialize-req"@ {
        MediaKind::AggregationJobInitReq
    } else if text == "application/dap-aggregate-initialize-resp"@ {
        MediaKind::AggregationJobResp
    } else if text == "application/dap-aggregate-continue-req"@ {
        MediaKind::AggregationJobContinueReq
    } else if text == "application/dap-aggregate-continue-resp"@ {
        MediaKind::Draft02AggregateContinueResp
    } else if text == "application/dap-aggregate-share-req"@ {
        MediaKind::AggregateShareReq
    } else if text == "application/dap-aggregate-share-resp"@ {
        MediaKind::AggregateShare
    } else if text == "application/dap-collect-req"@ {
        MediaKind::CollectReq
    } else if text == "application/dap-collect-resp"@ {
        MediaKind::Collection
    } else if text == "application/dap-hpke-config"@ {
        MediaKind::HpkeConfigList
    } else if text == "application/dap-report"@ {
        MediaKind::Report
    } else {
        MediaKind::Invalid(text)
    }
}

/// The media type that a text names in the newer version.
pub open spec fn draft05_kind(text: Seq<char>) -> MediaKind {
    if text == "application/dap-aggregation-job-init-req"@ {
        MediaKind::AggregationJobInitReq
    } else if text == "application/dap-aggregation-job-resp"@ {
        MediaKind::AggregationJobResp
    } else if text == "application/dap-aggregation-job-continue-req"@ {
        MediaKind::AggregationJobContinueReq
    } else if text == "application/dap-aggregate-share-req"@ {
        MediaKind::AggregateShareReq
    } else if text == "application/dap-aggregate-share"@ {
        MediaKind::AggregateShare
    } else if text == "application/dap-collect-req"@ {
        MediaKind::CollectReq
    } else if text == "application/dap-collection"@ {
        MediaKind::Collection
    } else if text == "application/dap-hpke-config-list"@ {
        MediaKind::HpkeConfigList
    } else if text == "application/dap-report"@ {
        MediaKind::Report
    } else {
        MediaKind::Invalid(text)
    }
}

/// The media type that a content type names in a version: missing where
/// there is no content type, invalid where the version does not know the
/// text or is itself unknown.
pub open spec fn media_kind_of(version: DapVersion, content_type: Option<Seq<char>>) -> MediaKind {
    match content_type {
        None => MediaKind::Missing,
        Some(text) => match version {
            DapVersion::Draft02 => draft02_kind(text),
            DapVersion::Draft05 => draft05_kind(text),
            DapVersion::Unknown => MediaKind::Invalid(text),
        },
    }
}

/// The text of a content type that may be absent.
pub open spec fn opt_text(text: Option<&str>) -> Option<Seq<char>> {
    match text {
        Some(t) => Some(t@),
        None => None,
    }
}

fn draft02_from_str(text: &str) -> (r: DapMediaType)
    ensures
        r@ == draft02_kind(text@),
{
    if text_is(text, "application/dap-aggregate-initialize-req") {
        DapMediaType::AggregationJobInitReq
    } else if text_is(text, "application/dap-aggregate-initialize-resp") {
        DapMediaType::AggregationJobResp
    } else if text_is(text, "application/dap-aggregate-continue-req") {
        DapMediaType::AggregationJobContinueReq
    } else if text_is(text, "application/dap-aggregate-continue-resp") {
        DapMediaType::Draft02AggregateContinueResp
    } else if text_is(text, "application/dap-aggregate-share-req") {
        DapMediaType::AggregateShareReq
    } else if text_is(text, "application/dap-aggregate-share-resp") {
        DapMediaType::AggregateShare
    } else if text_is(text, "application/dap-collect-req") {
        DapMediaType::CollectReq
    } else if text_is(text, "application/dap-collect-resp") {
        DapMediaType::Collection
    } else if text_is(text, "application/dap-hpke-config") {
        DapMediaType::HpkeConfigList
    } else if text_is(text, "application/dap-report") {
        DapMediaType::Report
    } else {
        DapMediaType::Invalid(text.to_owned())
    }
}

fn draft05_from_str(text: &str) -> (r: DapMediaType)
    ensures
        r@ == draft05_kind(text@),
{
    if text_is(text, "application/dap-aggregation-job-init-req") {
        DapMediaType::AggregationJobInitReq
    } else if text_is(text, "application/dap-aggregation-job-resp") {
        DapMediaType::AggregationJobResp
    } else if text_is(text, "application/dap-aggregation-job-continue-req") {
        DapMediaType::AggregationJobContinueReq
    } else if text_is(text, "application/dap-aggregate-share-req") {
        DapMediaType::AggregateShareReq
    } else if text_is(text, "application/dap-aggregate-share") {
        DapMediaType::AggregateShare
    } else if text_is(text, "application/dap-collect-req") {
        DapMediaType::CollectReq
    } else if text_is(text, "application/dap-collection") {
        DapMediaType::Collection
    } else if text_is(text, "application/dap-hpke-config-list") {
        DapMediaType::HpkeConfigList
    } else if text_is(text, "application/dap-report") {
        DapMediaType::Report
    } else {
        DapMediaType::Invalid(text.to_owned())
    }
}

/// The content type that names a media type in a version, where it has
/// one.
pub open spec fn media_type_name(version: DapVersion, kind: MediaKind) -> Option<Seq<char>> {
    match (version, kind) {
        (_, MediaKind::Missing) => None,
        (_, MediaKind::Invalid(text)) => Some(text),
        (DapVersion::Unknown, _) => None,
        (DapVersion::Draft02, MediaKind::AggregationJobInitReq) => Some(
            "application/dap-aggregate-initialize-req"@,
        ),
        (DapVersion::Draft05, MediaKind::AggregationJobInitReq) => Some(
            "application/dap-aggregation-job-init-req"@,
        ),
        (DapVersion::Draft02, MediaKind::AggregationJobResp) => Some(
            "application/dap-aggregate-initialize-resp"@,
        ),
        (DapVersion::Draft05, MediaKind::AggregationJobResp) => Some(
            "application/dap-aggregation-job-resp"@,
        ),
        (DapVersion::Draft02, MediaKind::AggregationJobContinueReq) => Some(
            "application/dap-aggregate-continue-req"@,
        ),
        (DapVersion::Draft05, MediaKind::AggregationJobContinueReq) => Some(
            "application/dap-aggregation-job-continue-req"@,
        ),
        (DapVersion::Draft02, MediaKind::Draft02AggregateContinueResp) => Some(
            "application/dap-aggregate-continue-resp"@,
        ),
        (DapVersion::Draft05, MediaKind::Draft02AggregateContinueResp) => None,
        (_, MediaKind::AggregateShareReq) => Some("application/dap-aggregate-share-req"@),
        (DapVersion::Draft02, MediaKind::AggregateShare) => Some(
            "application/dap-aggregate-share-resp"@,
        ),
        (DapVersion::Draft05, MediaKind::AggregateShare) => Some(
            "application/dap-aggregate-share"@,
        ),
        (_, MediaKind::CollectReq) => Some("application/dap-collect-req"@),
        (DapVersion::Draft02, MediaKind::Collection) => Some("application/dap-collect-resp"@),
        (DapVersion::Draft05, MediaKind::Collection) => Some("application/dap-collection"@),
        (DapVersion::Draft02, MediaKind::HpkeConfigList) => Some("application/dap-hpke-config"@),
        (DapVersion::Draft05, MediaKind::HpkeConfigList) => Some(
            "application/dap-hpke-config-list"@,
        ),
        (_, MediaKind::Report) => Some("application/dap-report"@),
    }
}

impl DapMediaType {
    /// Reads the media type that a content type names in a version.
    pub fn from_str_for_version(version: DapVersion, content_type: Option<&str>) -> (r:
        DapMediaType)
        ensures
            r@ == media_kind_of(version, opt_text(content_type)),
    {
        match content_type {
            None => DapMediaType::Missing,
            Some(text) => match version {
                DapVersion::Draft02 => draft02_from_str(text),
                DapVersion::Draft05 => draft05_from_str(text),
                DapVersion::Unknown => DapMediaType::Invalid(text.to_owned()),
            },
        }
    }

    /// The content type that names this media type in a version, where it
    /// has one.
    pub fn as_str_for_version(&self, version: DapVersion) -> (r: Option<String>)
        ensures
            r.is_some() == media_type_name(version, self@).is_some(),
            r.is_some() ==> r.unwrap()@ == media_type_name(version, self@).unwrap(),
    {
        let draft02 = match version {
            DapVersion::Draft02 => true,
            DapVersion::Draft05 => false,
            DapVersion::Unknown => {
                return match self {
                    DapMediaType::Invalid(text) => Some(text.clone()),
                    _ => None,
                };
            },
        };
        let name: &str = match self {
            DapMediaType::Missing => {
                return None;
            },
            DapMediaType::Invalid(text) => {
                return Some(text.clone());
            },
            DapMediaType::AggregationJobInitReq => if draft02 {
                "application/dap-aggregate-initialize-req"
            } else {
                "application/dap-aggregation-job-init-req"
            },
            DapMediaType::AggregationJobResp => if draft02 {
                "application/dap-aggregate-initialize-resp"
            } else {
                "application/dap-aggregation-job-resp"
            },
            DapMediaType::AggregationJobContinueReq => if draft02 {
                "application/dap-aggregate-continue-req"
            } else {
                "application/dap-aggregation-job-continue-req"
            },
            DapMediaType::Draft02AggregateContinueResp => if draft02 {
                "application/dap-aggregate-continue-resp"
            } else {
                return None;
            },
            DapMediaType::AggregateShareReq => "application/dap-aggregate-share-req",
            DapMediaType::AggregateShare => if draft02 {
                "application/dap-aggregate-share-resp"
            } else {
                "application/dap-aggregate-share"
            },
            DapMediaType::CollectReq => "application/dap-collect-req",
            DapMediaType::Collection => if draft02 {
                "application/dap-collect-resp"
            } else {
                "application/dap-collection"
            },
            DapMediaType::HpkeConfigList => if draft02 {
                "application/dap-hpke-config"
            } else {
                "application/dap-hpke-config-list"
            },
            DapMediaType::Report => "application/dap-report",
        };
        Some(name.to_owned())
    }
}

} // verus!
