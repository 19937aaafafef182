use vstd::prelude::*;

use crate::routing::Route;

verus! {

/// The state of a poll: a value is ready, or the caller must wait.
#[derive(Debug, PartialEq, Eq)]
pub enum Polled<T> {
    Ready(T),
    Pending,
}

/// An error of a hybrid service, tagged with the inner service it came from.
#[derive(Debug, PartialEq, Eq)]
pub enum HybridError<WebError, GrpcError> {
    Web(WebError),
    Grpc(GrpcError),
}

/// A value produced by one of the two inner services, tagged with which one
/// produced it (the body of a response, or the response itself).
#[derive(Debug, PartialEq, Eq)]
pub enum HybridBody<WebBody, GrpcBody> {
    Web(WebBody),
    Grpc(GrpcBody),
}

/// The future of a request handed to one of the two inner services.
pub enum HybridFuture<WebFuture, GrpcFuture> {
    Web(WebFuture),
    Grpc(GrpcFuture),
}

/// The next step of a readiness check after the web service was polled.
#[derive(Debug, PartialEq, Eq)]
pub enum ReadyStep<WebError, GrpcError> {
    /// The web service is ready: poll the gRPC service next.
    PollGrpc,
    /// The check is over with this result; the gRPC service is not polled.
    Done(Polled<Result<(), HybridError<WebError, GrpcError>>>),
}

/// A service factory: for each connection it makes a web service and pairs
/// it with a clone of the gRPC service.
pub struct HybridMakeService<Web, Grpc> {
    make_web: Web,
    grpc: Grpc,
}

/// The future of a [`HybridMakeService`] call: once the web service is made it
/// yields a [`HybridService`] that holds it and the gRPC service.
pub struct HybridMakeServiceFuture<WebFuture, Grpc> {
    web_future: WebFuture,
    grpc: Option<Grpc>,
}

/// A service that forwards each request to the web service or to the gRPC
/// service.
pub struct HybridService<Web, Grpc> {
    web: Web,
    grpc: Grpc,
}

impl<Web, Grpc> HybridMakeService<Web, Grpc> {
    pub closed spec fn make_web(&self) -> Web {
        self.make_web
    }

    pub closed spec fn grpc(&self) -> Grpc {
        self.grpc
    }

    pub fn new(make_web: Web, grpc: Grpc) -> (r: Self)
        ensures
            r.make_web() == make_web,
            r.grpc() == grpc,
    {
        HybridMakeService { make_web, grpc }
    }

    /// The web service factory, to poll or call it.
    pub fn make_web_mut(&mut self) -> (r: &mut Web)
        ensures
            *r == old(self).make_web(),
            final(self).make_web() == *final(r),
            final(self).grpc() == old(self).grpc(),
    {
        &mut self.make_web
    }
}

impl<Web: Clone, Grpc: Clone> Clone for HybridMakeService<Web, Grpc> {
    fn clone(&self) -> (r: Self)
        ensures
            cloned(self.make_web(), r.make_web()),
            cloned(self.grpc(), r.grpc()),
    {
        HybridMakeService { make_web: self.make_web.clone(), grpc: self.grpc.clone() }
    }
}

impl<Web, Grpc: Clone> HybridMakeService<Web, Grpc> {
    /// Makes the future of a new connection's service from the future of its
    /// web service; the gRPC service of the new connection is a clone of this
    /// factory's.
    pub fn call<WebFuture>(&self, web_future: WebFuture) -> (r: HybridMakeServiceFuture<WebFuture, Grpc>)
        ensures
            r.web_future() == web_future,
            r.pending_grpc() is Some,
            cloned(self.grpc(), r.pending_grpc().unwrap()),
    {
        HybridMakeServiceFuture { web_future, grpc: Some(self.grpc.clone()) }
    }
}

impl<WebFuture, Grpc> HybridMakeServiceFuture<WebFuture, Grpc> {
    pub closed spec fn web_future(&self) -> WebFuture {
        self.web_future
    }

    /// The gRPC service that the future hands out once the web service is made;
    /// `None` once it has been handed out.
    pub closed spec fn pending_grpc(&self) -> Option<Grpc> {
        self.grpc
    }

    pub fn new(web_future: WebFuture, grpc: Option<Grpc>) -> (r: Self)
        ensures
            r.web_future() == web_future,
            r.pending_grpc() == grpc,
    {
        HybridMakeServiceFuture { web_future, grpc }
    }

    pub fn into_parts(self) -> (r: (WebFuture, Option<Grpc>))
        ensures
            r == (self.web_future(), self.pending_grpc()),
    {
        (self.web_future, self.grpc)
    }

    /// Takes in what polling the web future gave and returns what polling this
    /// future gives: the made service paired with the gRPC service, the web
    /// error, or pending.
    pub fn complete<Web, WebError>(&mut self, web: Polled<Result<Web, WebError>>) -> (r: Polled<
        Result<HybridService<Web, Grpc>, WebError>,
    >)
        requires
            web matches Polled::Ready(Ok(_)) ==> old(self).pending_grpc() is Some,
        ensures
            final(self).web_future() == old(self).web_future(),
            r == spec_complete(old(self).pending_grpc(), web),
            final(self).pending_grpc() == spec_grpc_after(old(self).pending_grpc(), web),
    {
        complete_make_service(&mut self.grpc, web)
    }
}

/// What polling a [`HybridMakeServiceFuture`] gives when its web future gave `web`.
pub open spec fn spec_complete<Web, Grpc, WebError>(
    grpc: Option<Grpc>,
    web: Polled<Result<Web, WebError>>,
) -> Polled<Result<HybridService<Web, Grpc>, WebError>> {
    match web {
        Polled::Pending => Polled::Pending,
        Polled::Ready(Err(e)) => Polled::Ready(Err(e)),
        Polled::Ready(Ok(w)) => Polled::Ready(Ok(HybridService::from_parts(w, grpc.unwrap()))),
    }
}

/// The gRPC service still held after a poll whose web future gave `web`:
/// it is handed out only with a made service.
pub open spec fn spec_grpc_after<Web, Grpc, WebError>(
    grpc: Option<Grpc>,
    web: Polled<Result<Web, WebError>>,
) -> Option<Grpc> {
    match web {
        Polled::Ready(Ok(_)) => None,
        _ => grpc,
    }
}

/// The step of [`HybridMakeServiceFuture::complete`] on the held gRPC service
/// alone, for a caller that keeps the web future elsewhere (pinned).
pub fn complete_make_service<Web, Grpc, WebError>(
    grpc: &mut Option<Grpc>,
    web: Polled<Result<Web, WebError>>,
) -> (r: Polled<Result<HybridService<Web, Grpc>, WebError>>)
    requires
        web matches Polled::Ready(Ok(_)) ==> *old(grpc) is Some,
    ensures
        r == spec_complete(*old(grpc), web),
        *final(grpc) == spec_grpc_after(*old(grpc), web),
{
    match web {
        Polled::Pending => Polled::Pending,
        Polled::Ready(Err(e)) => Polled::Ready(Err(e)),
        Polled::Ready(Ok(w)) => {
            let g = grpc.take();
            match g {
                Some(g) => Polled::Ready(Ok(HybridService { web: w, grpc: g })),
                None => {
                    assert(false);
                    Polled::Pending
                },
            }
        },
    }
}

impl<Web, Grpc> HybridService<Web, Grpc> {
    pub closed spec fn web(&self) -> Web {
        self.web
    }

    pub closed spec fn grpc(&self) -> Grpc {
        self.grpc
    }

    pub closed spec fn from_parts(web: Web, grpc: Grpc) -> Self {
        HybridService { web, grpc }
    }

    pub fn new(web: Web, grpc: Grpc) -> (r: Self)
        ensures
            r == Self::from_parts(web, grpc),
            r.web() == web,
            r.grpc() == grpc,
    {
        HybridService { web, grpc }
    }

    /// The two inner services, to poll or call them.
    pub fn services_mut(&mut self) -> (r: (&mut Web, &mut Grpc))
        ensures
            *r.0 == old(self).web(),
            *r.1 == old(self).grpc(),
            *final(self) == Self::from_parts(*final(r.0), *final(r.1)),
    {
        (&mut self.web, &mut self.grpc)
    }
}

/// The readiness check's next step after the web service's poll: an error of
/// the web service, or its not being ready, ends the check.
pub open spec fn spec_ready_after_web<WebError, GrpcError>(web: Polled<Result<(), WebError>>) -> ReadyStep<
    WebError,
    GrpcError,
> {
    match web {
        Polled::Ready(Ok(())) => ReadyStep::PollGrpc,
        Polled::Ready(Err(e)) => ReadyStep::Done(Polled::Ready(Err(HybridError::Web(e)))),
        Polled::Pending => ReadyStep::Done(Polled::Pending),
    }
}

/// A readiness poll of the gRPC service, its error tagged as the gRPC service's.
pub open spec fn spec_ready_after_grpc<WebError, GrpcError>(grpc: Polled<Result<(), GrpcError>>) -> Polled<
    Result<(), HybridError<WebError, GrpcError>>,
> {
    match grpc {
        Polled::Ready(Ok(())) => Polled::Ready(Ok(())),
        Polled::Ready(Err(e)) => Polled::Ready(Err(HybridError::Grpc(e))),
        Polled::Pending => Polled::Pending,
    }
}

/// The readiness of a hybrid service whose web service polled `web` and whose
/// gRPC service, if it is polled at all, polls `grpc`.
pub open spec fn spec_poll_ready<WebError, GrpcError>(
    web: Polled<Result<(), WebError>>,
    grpc: Polled<Result<(), GrpcError>>,
) -> Polled<Result<(), HybridError<WebError, GrpcError>>> {
    match spec_ready_after_web::<WebError, GrpcError>(web) {
        ReadyStep::PollGrpc => spec_ready_after_grpc(grpc),
        ReadyStep::Done(r) => r,
    }
}

/// What polling a [`HybridFuture::Web`] gives when the web service's future
/// gave `p`: its response tagged as the web service's, or its error so tagged.
pub open spec fn spec_web_outcome<WebResponse, GrpcResponse, WebError, GrpcError>(
    p: Polled<Result<WebResponse, WebError>>,
) -> Polled<Result<HybridBody<WebResponse, GrpcResponse>, HybridError<WebError, GrpcError>>> {
    match p {
        Polled::Ready(Ok(v)) => Polled::Ready(Ok(HybridBody::Web(v))),
        Polled::Ready(Err(e)) => Polled::Ready(Err(HybridError::Web(e))),
        Polled::Pending => Polled::Pending,
    }
}

/// What polling a [`HybridFuture::Grpc`] gives when the gRPC service's future
/// gave `p`.
pub open spec fn spec_grpc_outcome<WebResponse, GrpcResponse, WebError, GrpcError>(
    p: Polled<Result<GrpcResponse, GrpcError>>,
) -> Polled<Result<HybridBody<WebResponse, GrpcResponse>, HybridError<WebError, GrpcError>>> {
    match p {
        Polled::Ready(Ok(v)) => Polled::Ready(Ok(HybridBody::Grpc(v))),
        Polled::Ready(Err(e)) => Polled::Ready(Err(HybridError::Grpc(e))),
        Polled::Pending => Polled::Pending,
    }
}

/// The first step of a hybrid service's readiness check: takes what polling
/// the web service's readiness gave and says whether to poll the gRPC
/// service's next or what the check gives.
pub fn ready_after_web<WebError, GrpcError>(web: Polled<Result<(), WebError>>) -> (r: ReadyStep<
    WebError,
    GrpcError,
>)
    ensures
        r == spec_ready_after_web::<WebError, GrpcError>(web),
{
    match web {
        Polled::Ready(Ok(())) => ReadyStep::PollGrpc,
        Polled::Ready(Err(e)) => ReadyStep::Done(Polled::Ready(Err(HybridError::Web(e)))),
        Polled::Pending => ReadyStep::Done(Polled::Pending),
    }
}

/// The last step of a hybrid service's readiness check, taken once the web
/// service is ready: what polling the gRPC service gave decides it.
pub fn ready_after_grpc<WebError, GrpcError>(grpc: Polled<Result<(), GrpcError>>) -> (r: Polled<
    Result<(), HybridError<WebError, GrpcError>>,
>)
    ensures
        r == spec_ready_after_grpc::<WebError, GrpcError>(grpc),
        r == spec_poll_ready::<WebError, GrpcError>(Polled::Ready(Ok(())), grpc),
{
    match grpc {
        Polled::Ready(Ok(())) => Polled::Ready(Ok(())),
        Polled::Ready(Err(e)) => Polled::Ready(Err(HybridError::Grpc(e))),
        Polled::Pending => Polled::Pending,
    }
}

/// What polling a [`HybridFuture::Web`] gives when the web service's future
/// gave `p`.
pub fn web_outcome<WebResponse, GrpcResponse, WebError, GrpcError>(
    p: Polled<Result<WebResponse, WebError>>,
) -> (r: Polled<Result<HybridBody<WebResponse, GrpcResponse>, HybridError<WebError, GrpcError>>>)
    ensures
        r == spec_web_outcome::<WebResponse, GrpcResponse, WebError, GrpcError>(p),
{
    match p {
        Polled::Ready(Ok(v)) => Polled::Ready(Ok(HybridBody::Web(v))),
        Polled::Ready(Err(e)) => Polled::Ready(Err(HybridError::Web(e))),
        Polled::Pending => Polled::Pending,
    }
}

/// What polling a [`HybridFuture::Grpc`] gives when the gRPC service's future
/// gave `p`.
pub fn grpc_outcome<WebResponse, GrpcResponse, WebError, GrpcError>(
    p: Polled<Result<GrpcResponse, GrpcError>>,
) -> (r: Polled<Result<HybridBody<WebResponse, GrpcResponse>, HybridError<WebError, GrpcError>>>)
    ensures
        r == spec_grpc_outcome::<WebResponse, GrpcResponse, WebError, GrpcError>(p),
{
    match p {
        Polled::Ready(Ok(v)) => Polled::Ready(Ok(HybridBody::Grpc(v))),
        Polled::Ready(Err(e)) => Polled::Ready(Err(HybridError::Grpc(e))),
        Polled::Pending => Polled::Pending,
    }
}

/// What polling the future of a request gives when it went to `route` and the
/// inner futures gave `web` and `grpc` (only the one of the route is polled).
pub open spec fn spec_answer<WebResponse, GrpcResponse, WebError, GrpcError>(
    route: Route,
    web: Polled<Result<WebResponse, WebError>>,
    grpc: Polled<Result<GrpcResponse, GrpcError>>,
) -> Polled<Result<HybridBody<WebResponse, GrpcResponse>, HybridError<WebError, GrpcError>>> {
    match route {
        Route::Web => spec_web_outcome(web),
        Route::Grpc => spec_grpc_outcome(grpc),
    }
}

/// The readiness check, case by case on what the two polls gave.
proof fn lemma_poll_ready_cases<WebError, GrpcError>(
    web: Polled<Result<(), WebError>>,
    grpc: Polled<Result<(), GrpcError>>,
)
    ensures
        spec_poll_ready(web, grpc) == (if web is Pending {
            Polled::Pending
        } else if web->Ready_0 is Err {
            Polled::Ready(Err(HybridError::Web(web->Ready_0->Err_0)))
        } else if grpc is Pending {
            Polled::Pending
        } else if grpc->Ready_0 is Err {
            Polled::Ready(Err(HybridError::Grpc(grpc->Ready_0->Err_0)))
        } else {
            Polled::<Result<(), HybridError<WebError, GrpcError>>>::Ready(Ok(()))
        }),
        (web is Ready && web->Ready_0 is Ok) <==> web == Polled::<Result<(), WebError>>::Ready(Ok(())),
        (grpc is Ready && grpc->Ready_0 is Ok) <==> grpc == Polled::<Result<(), GrpcError>>::Ready(
            Ok(()),
        ),
{
    match web {
        Polled::Ready(Ok(u)) => {
            assert(web == Polled::<Result<(), WebError>>::Ready(Ok(())));
            assert(spec_ready_after_web::<WebError, GrpcError>(web) is PollGrpc);
        },
        _ => {},
    }
    match grpc {
        Polled::Ready(Ok(v)) => {
            assert(grpc == Polled::<Result<(), GrpcError>>::Ready(Ok(())));
        },
        _ => {},
    }
}

/// A hybrid service is ready exactly when both of its services are ready.
pub proof fn lemma_ready_iff_both_ready<WebError, GrpcError>(
    web: Polled<Result<(), WebError>>,
    grpc: Polled<Result<(), GrpcError>>,
)
    ensures
        spec_poll_ready(web, grpc) == Polled::<Result<(), HybridError<WebError, GrpcError>>>::Ready(
            Ok(()),
        ) <==> (web == Polled::<Result<(), WebError>>::Ready(Ok(())) && grpc
            == Polled::<Result<(), GrpcError>>::Ready(Ok(()))),
{
    lemma_poll_ready_cases(web, grpc);
}

/// Until the web service is ready the gRPC service is not consulted: its
/// readiness makes no difference to the check.
pub proof fn lemma_web_not_ready_decides<WebError, GrpcError>(
    web: Polled<Result<(), WebError>>,
    grpc1: Polled<Result<(), GrpcError>>,
    grpc2: Polled<Result<(), GrpcError>>,
)
    requires
        web != Polled::<Result<(), WebError>>::Ready(Ok(())),
    ensures
        spec_poll_ready(web, grpc1) == spec_poll_ready(web, grpc2),
        spec_ready_after_web::<WebError, GrpcError>(web) is Done,
{
    match web {
        Polled::Ready(Ok(u)) => { assert(spec_ready_after_web::<WebError, GrpcError>(web) is PollGrpc); },
        Polled::Ready(Err(e)) => { assert(spec_ready_after_web::<WebError, GrpcError>(web) == ReadyStep::<WebError, GrpcError>::Done(Polled::Ready(Err(HybridError::Web(e))))); },
        Polled::Pending => {},
    }
}

/// A readiness error names the service that reported it: the web service's
/// error when the web service failed, the gRPC service's when the web service
/// was ready and the gRPC service failed. A service that is not ready yet
/// makes the check pending.
pub proof fn lemma_readiness_errors_are_attributed<WebError, GrpcError>(
    web: Polled<Result<(), WebError>>,
    grpc: Polled<Result<(), GrpcError>>,
)
    ensures
        forall|e: WebError|
            spec_poll_ready(web, grpc) == Polled::<Result<(), HybridError<WebError, GrpcError>>>::Ready(
                Err(HybridError::Web(e)),
            ) <==> web == Polled::<Result<(), WebError>>::Ready(Err(e)),
        forall|e: GrpcError|
            spec_poll_ready(web, grpc) == Polled::<Result<(), HybridError<WebError, GrpcError>>>::Ready(
                Err(HybridError::Grpc(e)),
            ) <==> (web == Polled::<Result<(), WebError>>::Ready(Ok(())) && grpc == Polled::<
                Result<(), GrpcError>,
            >::Ready(Err(e))),
        spec_poll_ready(web, grpc) is Pending <==> (web is Pending || (web == Polled::<
            Result<(), WebError>,
        >::Ready(Ok(())) && grpc is Pending)),
{
    lemma_poll_ready_cases(web, grpc);
}

/// The made service is handed out once: the poll that yields it leaves no gRPC
/// service behind, and every other poll leaves the future as it was and passes
/// on what the web future gave.
pub proof fn lemma_grpc_handed_out_once<Web, Grpc, WebError>(
    grpc: Option<Grpc>,
    web: Polled<Result<Web, WebError>>,
)
    ensures
        web matches Polled::Ready(Ok(_)) ==> spec_grpc_after(grpc, web) is None,
        web is Pending ==> spec_grpc_after(grpc, web) == grpc && spec_complete(grpc, web) is Pending,
        forall|e: WebError|
            web == Polled::<Result<Web, WebError>>::Ready(Err(e)) ==> spec_grpc_after(grpc, web)
                == grpc && spec_complete(grpc, web) == Polled::<
                Result<HybridService<Web, Grpc>, WebError>,
            >::Ready(Err(e)),
{
}

/// The service made for a connection holds the web service made for it and a
/// clone of the factory's gRPC service.
pub proof fn lemma_made_service_parts<MakeWeb, WebFuture, Web, Grpc: Clone, WebError>(
    factory: HybridMakeService<MakeWeb, Grpc>,
    future: HybridMakeServiceFuture<WebFuture, Grpc>,
    web: Web,
)
    requires
        future.pending_grpc() is Some,
        cloned(factory.grpc(), future.pending_grpc().unwrap()),
    ensures
        spec_complete::<Web, Grpc, WebError>(future.pending_grpc(), Polled::Ready(Ok(web))) matches Polled::Ready(
            Ok(service),
        ) && service.web() == web && cloned(factory.grpc(), service.grpc()),
{
}

/// A request is answered by the service it was routed to: the answer to a
/// gRPC request, response or error, is the gRPC service's, and the answer to
/// any other request is the web service's.
pub proof fn lemma_answer_comes_from_routed_service<WebResponse, GrpcResponse, WebError, GrpcError>(
    route: Route,
    web: Polled<Result<WebResponse, WebError>>,
    grpc: Polled<Result<GrpcResponse, GrpcError>>,
)
    ensures
        route == Route::Grpc ==> match spec_answer(route, web, grpc) {
            Polled::Ready(Ok(body)) => body is Grpc,
            Polled::Ready(Err(e)) => e is Grpc,
            Polled::Pending => grpc is Pending,
        },
        route == Route::Web ==> match spec_answer(route, web, grpc) {
            Polled::Ready(Ok(body)) => body is Web,
            Polled::Ready(Err(e)) => e is Web,
            Polled::Pending => web is Pending,
        },
{
}

} // verus!
