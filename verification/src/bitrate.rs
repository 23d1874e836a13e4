//! The bitrate that a sender aims at.

use vstd::prelude::*;

use crate::real_number::Real;
use crate::text;

verus! {

/// Where a bitrate comes from.
#[derive(Clone, Copy, Debug, PartialEq, Eq, Structural)]
pub enum BitrateSource {
    Default,
    ExplicitBitrate,
    QualityBpf,
}

impl BitrateSource {
    pub open spec fn text(self) -> Seq<char> {
        match self {
            BitrateSource::Default => "default"@,
            BitrateSource::ExplicitBitrate => "explicit-bitrate"@,
            BitrateSource::QualityBpf => "quality-bpf"@,
        }
    }

    pub fn name(self) -> (r: &'static str)
        ensures
            r@ == self.text(),
    {
        match self {
            BitrateSource::Default => "default",
            BitrateSource::ExplicitBitrate => "explicit-bitrate",
            BitrateSource::QualityBpf => "quality-bpf",
        }
    }
}

/// What a bitrate is chosen from.
#[derive(Clone, Copy, Debug, PartialEq, Eq, Structural)]
pub struct BitrateRequest {
    pub width: u32,
    pub height: u32,
    pub fps: u32,
    pub default_mbps: Real,
    pub explicit_mbps: Option<Real>,
    pub quality_bpf: Option<Real>,
}

/// The bitrate that was chosen, in megabits per second, and why.
#[derive(Clone, Copy, Debug, PartialEq, Eq, Structural)]
pub struct BitrateSelection {
    pub target_mbps: Real,
    pub source: BitrateSource,
    pub quality_bpf_requested: Option<Real>,
}

impl BitrateSelection {
    /// An explicit bitrate comes first, then one by quality, then the default.
    /// `by_quality` is what the size, the frame rate and the bits per pixel give.
    pub open spec fn chosen(
        request: BitrateRequest,
        by_quality: Result<Real, Seq<char>>,
    ) -> Result<BitrateSelection, Seq<char>> {
        let quality_bpf_requested = request.quality_bpf;
        match (request.explicit_mbps, request.quality_bpf) {
            (Some(target_mbps), _) => Ok(
                BitrateSelection {
                    target_mbps,
                    source: BitrateSource::ExplicitBitrate,
                    quality_bpf_requested,
                },
            ),
            (None, Some(_)) => match by_quality {
                Ok(target_mbps) => Ok(
                    BitrateSelection {
                        target_mbps,
                        source: BitrateSource::QualityBpf,
                        quality_bpf_requested,
                    },
                ),
                Err(error) => Err(error),
            },
            (None, None) => Ok(
                BitrateSelection {
                    target_mbps: request.default_mbps,
                    source: BitrateSource::Default,
                    quality_bpf_requested,
                },
            ),
        }
    }

    /// Chooses a bitrate.
    pub fn resolve(request: BitrateRequest, by_quality: &Result<Real, String>) -> (r: Result<
        BitrateSelection,
        String,
    >)
        ensures
            text::agrees(r, Self::chosen(request, text::result(*by_quality))),
    {
        let quality_bpf_requested: Option<Real> = request.quality_bpf;
        if let Some(target_mbps) = request.explicit_mbps {
            return Ok(
                BitrateSelection {
                    target_mbps,
                    source: BitrateSource::ExplicitBitrate,
                    quality_bpf_requested,
                },
            );
        }
        if request.quality_bpf.is_none() {
            return Ok(
                BitrateSelection {
                    target_mbps: request.default_mbps,
                    source: BitrateSource::Default,
                    quality_bpf_requested,
                },
            );
        }
        match by_quality {
            Ok(target_mbps) => Ok(
                BitrateSelection {
                    target_mbps: *target_mbps,
                    source: BitrateSource::QualityBpf,
                    quality_bpf_requested,
                },
            ),
            Err(error) => Err(error.clone()),
        }
    }
}

/// An explicit bitrate is taken as it is, whatever quality is asked for.
pub proof fn law_explicit_bitrate_first(
    request: BitrateRequest,
    by_quality: Result<Real, Seq<char>>,
)
    requires
        request.explicit_mbps is Some,
    ensures
        BitrateSelection::chosen(request, by_quality) is Ok,
        BitrateSelection::chosen(request, by_quality)->Ok_0.target_mbps
            == request.explicit_mbps->0,
        BitrateSelection::chosen(request, by_quality)->Ok_0.source
            == BitrateSource::ExplicitBitrate,
{
}

/// A quality that is asked for comes before the default, which is left where neither a
/// bitrate nor a quality is asked for.
pub proof fn law_quality_before_default(
    request: BitrateRequest,
    by_quality: Result<Real, Seq<char>>,
)
    requires
        request.explicit_mbps is None,
    ensures
        request.quality_bpf is Some ==> match (
            by_quality,
            BitrateSelection::chosen(request, by_quality),
        ) {
            (Ok(mbps), Ok(chosen)) => chosen.target_mbps == mbps && chosen.source
                == BitrateSource::QualityBpf,
            (Err(error), Err(refused)) => refused == error,
            _ => false,
        },
        request.quality_bpf is None ==> BitrateSelection::chosen(request, by_quality) == Ok::<
            BitrateSelection,
            Seq<char>,
        >(
            BitrateSelection {
                target_mbps: request.default_mbps,
                source: BitrateSource::Default,
                quality_bpf_requested: None,
            },
        ),
{
}

/// Whatever is chosen tells the quality that was asked for, and where it comes from by a
/// name of its own.
pub proof fn law_selection_tells_the_quality(
    request: BitrateRequest,
    by_quality: Result<Real, Seq<char>>,
)
    ensures
        BitrateSelection::chosen(request, by_quality) matches Ok(chosen)
            ==> chosen.quality_bpf_requested == request.quality_bpf,
        BitrateSource::Default.text() == "default"@,
        BitrateSource::ExplicitBitrate.text() == "explicit-bitrate"@,
        BitrateSource::QualityBpf.text() == "quality-bpf"@,
{
}

} // verus!
