//! Event enricher: augment an outgoing telemetry event with the request
//! descriptor and an SDK-identity marker, without overwriting fields that
//! deeper layers already populated.

use vstd::prelude::*;
use vstd::string::StringExecFns;
use crate::request::{RequestDescriptor, RequestDescriptorV};

verus! {

/// One entry of an event's SDK package list.
#[derive(Clone, Debug, PartialEq)]
pub struct SdkPackage {
    pub name: String,
    pub version: String,
}

/// Mathematical view of an SDK package entry.
pub struct SdkPackageV {
    pub name: Seq<char>,
    pub version: Seq<char>,
}

impl View for SdkPackage {
    type V = SdkPackageV;

    open spec fn view(&self) -> SdkPackageV {
        SdkPackageV { name: self.name@, version: self.version@ }
    }
}

pub open spec fn spec_packages_view(ps: Seq<SdkPackage>) -> Seq<SdkPackageV> {
    ps.map_values(|p: SdkPackage| p@)
}

/// The fields of an outgoing telemetry event that the enricher touches.
///
/// `request` is the event's request snapshot, when one was already attached;
/// `sdk` is the event's SDK description (its package list), when present.
pub struct Event {
    pub request: Option<RequestDescriptor>,
    pub sdk: Option<Vec<SdkPackage>>,
}

/// Mathematical view of an event.
#[verifier::ext_equal]
pub struct EventV {
    pub request: Option<RequestDescriptorV>,
    pub sdk: Option<Seq<SdkPackageV>>,
}

impl View for Event {
    type V = EventV;

    open spec fn view(&self) -> EventV {
        EventV {
            request: match self.request {
                Some(r) => Some(r@),
                None => None,
            },
            sdk: match self.sdk {
                Some(pkgs) => Some(spec_packages_view(pkgs@)),
                None => None,
            },
        }
    }
}

/// The SDK-identity marker this middleware appends to enriched events.
pub open spec fn spec_sdk_marker() -> SdkPackageV {
    SdkPackageV { name: "sentry-conduit"@, version: "0.1.0"@ }
}

/// What the enricher makes of event `e` given the request descriptor `r`:
/// the request field is filled with `r` only when still empty, and the SDK
/// marker is appended to the package list when an SDK description exists.
pub open spec fn spec_process_event(e: EventV, r: RequestDescriptorV) -> EventV {
    EventV {
        request: match e.request {
            Some(_) => e.request,
            None => Some(r),
        },
        sdk: match e.sdk {
            Some(pkgs) => Some(pkgs.push(spec_sdk_marker())),
            None => None,
        },
    }
}

/// Add request data and the SDK-identity marker to a telemetry event.
///
/// The request field is only filled if deeper layers have not populated it;
/// it is never overwritten.
pub fn process_event(event: Event, request: RequestDescriptor) -> (r: Event)
    ensures
        r@ == spec_process_event(event@, request@),
{
    let ghost ev = event@;
    let Event { request: event_request, sdk } = event;

    let new_request = match event_request {
        Some(existing) => Some(existing),
        None => Some(request),
    };

    let new_sdk = match sdk {
        Some(mut pkgs) => {
            let ghost old_pkgs = spec_packages_view(pkgs@);
            let marker = SdkPackage {
                name: "sentry-conduit".to_owned(),
                version: "0.1.0".to_owned(),
            };
            pkgs.push(marker);
            proof {
                assert(spec_packages_view(pkgs@) =~= old_pkgs.push(spec_sdk_marker()));
            }
            Some(pkgs)
        },
        None => None,
    };

    let r = Event { request: new_request, sdk: new_sdk };
    proof {
        assert(r@ =~= spec_process_event(ev, request@));
    }
    r
}

/// The enricher never overwrites: a request field populated by a deeper
/// layer is kept as it is, and an event without an SDK description gains
/// none.
pub proof fn lemma_enricher_does_not_overwrite(e: EventV, r: RequestDescriptorV)
    ensures
        e.request is Some ==> spec_process_event(e, r).request == e.request,
        e.sdk is None ==> spec_process_event(e, r).sdk is None,
{
}

} // verus!
