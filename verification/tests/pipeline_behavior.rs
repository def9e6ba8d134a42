//! Behavioral tests: drive the pipeline with scripted middlewares, handler
//! units and sinks, and check the traversal orders, the fast paths, and the
//! failure policies.

use std::cell::{Cell, RefCell};
use std::rc::Rc;

use pipeline::pipeline::{Pipeline, PipelineState};
use pipeline::response::MiddlewaresResponse;
use pipeline::types::{
    Async, Finished, FinishFuture, FinishPoll, Handler, HookError, Middleware, MwResponse,
    Payload, Request, Response, ResponseFuture, ResponsePoll, Started, StartFuture, StartPoll,
    Task, Writer, WriteStatus,
};

const START: u64 = 0;
const RESPONSE: u64 = 1;
const FINISH: u64 = 2;

type Log = Rc<RefCell<Vec<(u64, u64)>>>;

// --- scripted pending operations -------------------------------------------

struct SFut {
    delay: u32,
    req: Option<Request>,
    resp: Option<Response>,
    fail: bool,
}

impl StartFuture for SFut {
    fn poll(&mut self) -> StartPoll {
        if self.delay > 0 {
            self.delay -= 1;
            return StartPoll::NotReady;
        }
        let req = self.req.take().expect("start operation polled after resolution");
        if self.fail {
            StartPoll::Failed(req, self.resp.take().expect("failing op needs a response"))
        } else {
            StartPoll::Ready(req, self.resp.take())
        }
    }
}

struct RFut {
    delay: u32,
    resp: Option<Response>,
    fail: bool,
}

impl ResponseFuture for RFut {
    fn poll(&mut self) -> ResponsePoll {
        if self.delay > 0 {
            self.delay -= 1;
            return ResponsePoll::NotReady;
        }
        let resp = self.resp.take().expect("response operation polled after resolution");
        if self.fail {
            ResponsePoll::Failed(resp)
        } else {
            ResponsePoll::Ready(resp)
        }
    }
}

struct FFut {
    delay: u32,
    fail: bool,
}

impl FinishFuture for FFut {
    fn poll(&mut self) -> FinishPoll {
        if self.delay > 0 {
            self.delay -= 1;
            return FinishPoll::NotReady;
        }
        if self.fail {
            FinishPoll::Failed(HookError { code: 99 })
        } else {
            FinishPoll::Ready
        }
    }
}

// --- scripted middleware -----------------------------------------------------

#[derive(Clone, Copy)]
enum StartB {
    Pass,
    Short(u16),
    PendingPass(u32),
    PendingShort(u32, u16),
    PendingFail(u32, u16),
}

#[derive(Clone, Copy)]
enum RespB {
    Immediate,
    Tag(u64),
    Pending(u32),
}

#[derive(Clone, Copy)]
enum FinB {
    Done,
    PendingOk(u32),
    PendingFail(u32),
}

struct TestMw {
    id: u64,
    start_b: StartB,
    resp_b: RespB,
    fin_b: FinB,
    log: Log,
}

impl TestMw {
    fn passing(id: u64, log: &Log) -> TestMw {
        TestMw { id, start_b: StartB::Pass, resp_b: RespB::Immediate, fin_b: FinB::Done, log: Rc::clone(log) }
    }
}

impl Middleware for TestMw {
    type SFut = SFut;
    type RFut = RFut;
    type FFut = FFut;

    fn start(&self, req: Request) -> Started<SFut> {
        self.log.borrow_mut().push((self.id, START));
        match self.start_b {
            StartB::Pass => Started::Done(req),
            StartB::Short(code) => {
                Started::Response(req, Response { status: code, tags: Vec::new() })
            }
            StartB::PendingPass(d) => {
                Started::Future(SFut { delay: d, req: Some(req), resp: None, fail: false })
            }
            StartB::PendingShort(d, code) => Started::Future(SFut {
                delay: d,
                req: Some(req),
                resp: Some(Response { status: code, tags: Vec::new() }),
                fail: false,
            }),
            StartB::PendingFail(d, code) => Started::Future(SFut {
                delay: d,
                req: Some(req),
                resp: Some(Response { status: code, tags: Vec::new() }),
                fail: true,
            }),
        }
    }

    fn response(&self, _req: &mut Request, resp: Response) -> MwResponse<RFut> {
        self.log.borrow_mut().push((self.id, RESPONSE));
        match self.resp_b {
            RespB::Immediate => MwResponse::Response(resp),
            RespB::Tag(t) => {
                let mut resp = resp;
                resp.tags.push(t);
                MwResponse::Response(resp)
            }
            RespB::Pending(d) => MwResponse::Future(RFut { delay: d, resp: Some(resp), fail: false }),
        }
    }

    fn finish(&self, _req: &mut Request, _resp: &Response) -> Finished<FFut> {
        self.log.borrow_mut().push((self.id, FINISH));
        match self.fin_b {
            FinB::Done => Finished::Done,
            FinB::PendingOk(d) => Finished::Future(FFut { delay: d, fail: false }),
            FinB::PendingFail(d) => Finished::Future(FFut { delay: d, fail: true }),
        }
    }
}

// --- scripted handler unit and handler ---------------------------------------

struct TestTask {
    resp: Option<Response>,
    final_resp: Option<Response>,
    mw: Option<MiddlewaresResponse<TestMw>>,
    disconnect_count: u64,
    body: Vec<u8>,
    fail_completion: bool,
}

impl Task<TestMw> for TestTask {
    fn reply(resp: Response) -> Self {
        TestTask {
            resp: Some(resp),
            final_resp: None,
            mw: None,
            disconnect_count: 0,
            body: Vec::new(),
            fail_completion: false,
        }
    }

    fn poll_io<W: Writer>(&mut self, io: &mut W, req: &mut Request) -> Result<Async<bool>, ()> {
        if self.mw.is_some() && self.resp.is_some() {
            let mut mr = self.mw.take().expect("checked above");
            match mr.response(req, self.resp.take().expect("checked above")) {
                Some(r) => self.final_resp = Some(r),
                None => loop {
                    match mr.poll(req) {
                        Ok(Async::Ready(Some(r))) => {
                            self.final_resp = Some(r);
                            break;
                        }
                        Ok(Async::Ready(None)) => break,
                        Ok(Async::NotReady) => continue,
                        Err(()) => break,
                    }
                },
            }
        }
        io.write(&self.body);
        Ok(Async::Ready(true))
    }

    fn poll(&mut self) -> Result<Async<()>, HookError> {
        if self.fail_completion {
            Err(HookError { code: 7 })
        } else {
            Ok(Async::Ready(()))
        }
    }

    fn disconnected(&mut self) {
        self.disconnect_count += 1;
    }

    fn response(&mut self) -> Response {
        if let Some(r) = self.final_resp.take() {
            r
        } else if let Some(r) = self.resp.take() {
            r
        } else {
            Response { status: 0, tags: Vec::new() }
        }
    }

    fn set_middlewares(&mut self, mw: MiddlewaresResponse<TestMw>) {
        self.mw = Some(mw);
    }
}

struct TestHandler {
    calls: Rc<Cell<u64>>,
    status: u16,
    body: Vec<u8>,
    fail_completion: bool,
}

impl Handler<TestTask> for TestHandler {
    fn handle(&self, _req: &mut Request, _payload: Payload) -> TestTask {
        self.calls.set(self.calls.get() + 1);
        TestTask {
            resp: Some(Response { status: self.status, tags: Vec::new() }),
            final_resp: None,
            mw: None,
            disconnect_count: 0,
            body: self.body.clone(),
            fail_completion: self.fail_completion,
        }
    }
}

struct TestWriter {
    data: Vec<u8>,
    writes: u64,
}

impl Writer for TestWriter {
    fn write(&mut self, data: &Vec<u8>) -> WriteStatus {
        self.data.extend_from_slice(data);
        self.writes += 1;
        WriteStatus::Accepted
    }
}

// --- helpers ------------------------------------------------------------------

fn new_log() -> Log {
    Rc::new(RefCell::new(Vec::new()))
}

fn req() -> Request {
    Request { id: 1, extensions: Vec::new() }
}

fn payload() -> Payload {
    Payload { token: 42 }
}

fn handler(calls: &Rc<Cell<u64>>, status: u16) -> TestHandler {
    TestHandler { calls: Rc::clone(calls), status, body: vec![b'o', b'k'], fail_completion: false }
}

fn writer() -> TestWriter {
    TestWriter { data: Vec::new(), writes: 0 }
}

fn entries(log: &Log, phase: u64) -> Vec<u64> {
    log.borrow().iter().filter(|e| e.1 == phase).map(|e| e.0).collect()
}

// --- scenarios ------------------------------------------------------------------

#[test]
fn zero_middlewares_fast_path() {
    let calls = Rc::new(Cell::new(0u64));
    let mw: Rc<Vec<TestMw>> = Rc::new(Vec::new());
    let mut p: Pipeline<TestMw, TestTask, TestHandler> =
        Pipeline::new(req(), payload(), mw, handler(&calls, 200));
    assert_eq!(calls.get(), 1);
    assert!(matches!(p.0, PipelineState::Task(_, _, _)));
    let mut w = writer();
    assert!(matches!(p.poll_io(&mut w), Ok(Async::Ready(true))));
    assert!(matches!(p.poll(), Ok(Async::Ready(()))));
    // terminal without ever constructing a finish-chain runner
    assert!(matches!(p.0, PipelineState::Task(_, _, _)));
    assert_eq!(w.data, vec![b'o', b'k']);
}

#[test]
fn one_middleware_short_circuits_403() {
    let log = new_log();
    let calls = Rc::new(Cell::new(0u64));
    let mw = Rc::new(vec![TestMw {
        id: 0,
        start_b: StartB::Short(403),
        resp_b: RespB::Immediate,
        fin_b: FinB::Done,
        log: Rc::clone(&log),
    }]);
    let mut p: Pipeline<TestMw, TestTask, TestHandler> =
        Pipeline::new(req(), payload(), mw, handler(&calls, 200));
    // built directly from the short-circuit response; the handler never ran
    assert_eq!(calls.get(), 0);
    assert!(matches!(p.0, PipelineState::Handle(_)));
    let mut w = writer();
    assert!(matches!(p.poll_io(&mut w), Ok(Async::Ready(false))));
    assert!(matches!(p.poll(), Ok(Async::Ready(()))));
    // finish ran once, at index 0, and reached terminal
    assert_eq!(entries(&log, FINISH), vec![0]);
    match p.0 {
        PipelineState::Finishing(f) => {
            assert!(f.done);
            assert_eq!(f.resp.status, 403);
        }
        _ => panic!("expected the finish phase"),
    }
}

#[test]
fn pending_start_resolves_to_pass() {
    let log = new_log();
    let calls = Rc::new(Cell::new(0u64));
    let mw = Rc::new(vec![TestMw {
        id: 0,
        start_b: StartB::PendingPass(1),
        resp_b: RespB::Immediate,
        fin_b: FinB::Done,
        log: Rc::clone(&log),
    }]);
    let mut p: Pipeline<TestMw, TestTask, TestHandler> =
        Pipeline::new(req(), payload(), mw, handler(&calls, 200));
    assert!(matches!(p.0, PipelineState::Starting(_)));
    assert_eq!(calls.get(), 0);
    // the pending operation resolves to (request, no response): the loop
    // continues to the handler, which runs normally
    assert!(matches!(p.poll(), Ok(Async::Ready(()))));
    assert_eq!(calls.get(), 1);
    assert_eq!(entries(&log, START), vec![0]);
    assert_eq!(entries(&log, FINISH), vec![0]);
}

#[test]
fn pending_response_hook_delivers_on_resume() {
    let log = new_log();
    let mw = Rc::new(vec![TestMw {
        id: 0,
        start_b: StartB::Pass,
        resp_b: RespB::Pending(1),
        fin_b: FinB::Done,
        log: Rc::clone(&log),
    }]);
    let mut mr = MiddlewaresResponse::new(1, mw);
    let mut r = req();
    // first call suspends: no response yet
    assert!(mr
        .response(&mut r, Response { status: 200, tags: Vec::new() })
        .is_none());
    // not yet resolved
    assert!(matches!(mr.poll(&mut r), Ok(Async::NotReady)));
    // a later resume delivers the final response and reaches index 0
    match mr.poll(&mut r) {
        Ok(Async::Ready(Some(resp))) => assert_eq!(resp.status, 200),
        _ => panic!("expected the delivered response"),
    }
    assert_eq!(mr.idx, 0);
    assert_eq!(entries(&log, RESPONSE), vec![0]);
}

#[test]
fn three_middlewares_response_order_and_replacement() {
    let log = new_log();
    let calls = Rc::new(Cell::new(0u64));
    let mut mws = vec![TestMw::passing(0, &log), TestMw::passing(1, &log), TestMw::passing(2, &log)];
    mws[1].resp_b = RespB::Tag(11);
    let mw = Rc::new(mws);
    let mut p: Pipeline<TestMw, TestTask, TestHandler> =
        Pipeline::new(req(), payload(), mw, handler(&calls, 200));
    assert_eq!(entries(&log, START), vec![0, 1, 2]);
    let mut w = writer();
    // the handler unit drives the attached response chain while writing
    assert!(matches!(p.poll_io(&mut w), Ok(Async::Ready(false))));
    assert_eq!(entries(&log, RESPONSE), vec![2, 1, 0]);
    assert!(matches!(p.poll(), Ok(Async::Ready(()))));
    assert_eq!(entries(&log, FINISH), vec![2, 1, 0]);
    match p.0 {
        PipelineState::Finishing(f) => {
            // middleware 1's replacement mark survived to the final response
            assert_eq!(f.resp.status, 200);
            assert_eq!(f.resp.tags, vec![11]);
        }
        _ => panic!("expected the finish phase"),
    }
}

// --- ordering properties ----------------------------------------------------------

#[test]
fn short_circuit_mid_chain_onion_order() {
    let log = new_log();
    let calls = Rc::new(Cell::new(0u64));
    let mut mws = vec![TestMw::passing(0, &log), TestMw::passing(1, &log), TestMw::passing(2, &log)];
    mws[1].start_b = StartB::Short(500);
    let mw = Rc::new(mws);
    let mut p: Pipeline<TestMw, TestTask, TestHandler> =
        Pipeline::new(req(), payload(), mw, handler(&calls, 200));
    // hooks 0..=1 saw start, in ascending order; hook 2 never did
    assert_eq!(entries(&log, START), vec![0, 1]);
    assert_eq!(calls.get(), 0);
    let mut w = writer();
    assert!(matches!(p.poll_io(&mut w), Ok(Async::Ready(false))));
    assert!(matches!(p.poll(), Ok(Async::Ready(()))));
    // response and finish ran only below the short-circuiting hook,
    // in strictly descending order ending at 0
    assert_eq!(entries(&log, RESPONSE), vec![0]);
    assert_eq!(entries(&log, FINISH), vec![0]);
}

#[test]
fn pending_start_failure_becomes_short_circuit() {
    let log = new_log();
    let calls = Rc::new(Cell::new(0u64));
    let mut mws = vec![TestMw::passing(0, &log), TestMw::passing(1, &log), TestMw::passing(2, &log)];
    mws[2].start_b = StartB::PendingFail(1, 502);
    let mw = Rc::new(mws);
    let mut p: Pipeline<TestMw, TestTask, TestHandler> =
        Pipeline::new(req(), payload(), mw, handler(&calls, 200));
    assert!(matches!(p.0, PipelineState::Starting(_)));
    assert!(matches!(p.poll(), Ok(Async::Ready(()))));
    // the error-pair resolution is treated exactly as a short-circuit by hook 2
    assert_eq!(calls.get(), 0);
    assert_eq!(entries(&log, START), vec![0, 1, 2]);
    assert_eq!(entries(&log, FINISH), vec![1, 0]);
}

#[test]
fn body_stream_consumed_once_across_suspensions() {
    let log = new_log();
    let calls = Rc::new(Cell::new(0u64));
    let mut mws = vec![TestMw::passing(0, &log), TestMw::passing(1, &log)];
    mws[0].start_b = StartB::PendingPass(2);
    mws[1].start_b = StartB::PendingPass(2);
    let mw = Rc::new(mws);
    let mut p: Pipeline<TestMw, TestTask, TestHandler> =
        Pipeline::new(req(), payload(), mw, handler(&calls, 200));
    // several suspensions and resumptions before the chain completes
    assert!(matches!(p.poll(), Ok(Async::NotReady)));
    assert_eq!(calls.get(), 0);
    assert!(matches!(p.poll(), Ok(Async::NotReady)));
    assert_eq!(calls.get(), 0);
    assert!(matches!(p.poll(), Ok(Async::NotReady)));
    assert_eq!(calls.get(), 0);
    assert!(matches!(p.poll(), Ok(Async::Ready(()))));
    // the handler ran exactly once, consuming the body stream exactly once
    assert_eq!(calls.get(), 1);
    assert_eq!(entries(&log, START), vec![0, 1]);
}

#[test]
fn finish_chain_completes_when_every_hook_fails() {
    let log = new_log();
    let calls = Rc::new(Cell::new(0u64));
    let mut mws = vec![TestMw::passing(0, &log), TestMw::passing(1, &log), TestMw::passing(2, &log)];
    for m in mws.iter_mut() {
        m.fin_b = FinB::PendingFail(1);
    }
    let mw = Rc::new(mws);
    let mut p: Pipeline<TestMw, TestTask, TestHandler> =
        Pipeline::new(req(), payload(), mw, handler(&calls, 200));
    let mut w = writer();
    assert!(matches!(p.poll_io(&mut w), Ok(Async::Ready(false))));
    // every hook's pending operation resolves to an error; each one is
    // absorbed and the chain still reaches terminal
    let mut polls: u64 = 0;
    loop {
        match p.poll() {
            Ok(Async::Ready(())) => break,
            Ok(Async::NotReady) => {
                polls += 1;
                assert!(polls < 100, "finish chain did not reach terminal");
            }
            Err(_) => panic!("finish-hook failures must be absorbed"),
        }
    }
    assert_eq!(entries(&log, FINISH), vec![2, 1, 0]);
}

#[test]
fn disconnect_observed_exactly_once() {
    let log = new_log();
    let calls = Rc::new(Cell::new(0u64));
    let mw = Rc::new(vec![TestMw::passing(0, &log)]);
    let mut p: Pipeline<TestMw, TestTask, TestHandler> =
        Pipeline::new(req(), payload(), mw, handler(&calls, 200));
    assert!(matches!(p.0, PipelineState::Handle(_)));
    // repeated signals before completion are forwarded exactly once
    p.disconnected();
    p.disconnected();
    p.disconnected();
    match p.0 {
        PipelineState::Handle(h) => assert_eq!(h.task.disconnect_count, 1),
        _ => panic!("expected the handler phase"),
    }
}

#[test]
fn disconnect_while_start_chain_is_suspended() {
    let log = new_log();
    let calls = Rc::new(Cell::new(0u64));
    let mw = Rc::new(vec![TestMw {
        id: 0,
        start_b: StartB::PendingPass(1),
        resp_b: RespB::Immediate,
        fin_b: FinB::Done,
        log: Rc::clone(&log),
    }]);
    let mut p: Pipeline<TestMw, TestTask, TestHandler> =
        Pipeline::new(req(), payload(), mw, handler(&calls, 200));
    assert!(matches!(p.0, PipelineState::Starting(_)));
    // signalled before the handler unit exists: recorded, then forwarded
    // exactly once when the unit is built
    p.disconnected();
    p.disconnected();
    let mut probe: Pipeline<TestMw, TestTask, TestHandler> = match p.0 {
        PipelineState::Starting(mut s) => match s.poll() {
            Async::Ready(h) => Pipeline(PipelineState::Handle(h)),
            Async::NotReady => panic!("operation resolves after one delay"),
        },
        _ => panic!("expected the start phase"),
    };
    probe.disconnected();
    match probe.0 {
        PipelineState::Handle(h) => assert_eq!(h.task.disconnect_count, 1),
        _ => panic!("expected the handler phase"),
    }
}

// --- fast paths, failure policies, edges ------------------------------------------

#[test]
fn precomputed_error_reply_bypasses_chains() {
    let mut p: Pipeline<TestMw, TestTask, TestHandler> =
        Pipeline::error(Response { status: 400, tags: Vec::new() });
    assert!(matches!(p.0, PipelineState::Error(_, _)));
    let mut w = writer();
    assert!(matches!(p.poll_io(&mut w), Ok(Async::Ready(true))));
    assert!(matches!(p.poll(), Ok(Async::Ready(()))));
    match p.0 {
        PipelineState::Error(mut t, _) => assert_eq!(t.response().status, 400),
        _ => panic!("expected the error phase"),
    }
}

#[test]
fn handler_failure_still_runs_finish_chain() {
    let log = new_log();
    let calls = Rc::new(Cell::new(0u64));
    let mw = Rc::new(vec![TestMw::passing(0, &log), TestMw::passing(1, &log)]);
    let h = TestHandler {
        calls: Rc::clone(&calls),
        status: 200,
        body: Vec::new(),
        fail_completion: true,
    };
    let mut p: Pipeline<TestMw, TestTask, TestHandler> = Pipeline::new(req(), payload(), mw, h);
    // completion reports failure; cleanup runs exactly as on success
    assert!(matches!(p.poll(), Ok(Async::Ready(()))));
    assert_eq!(entries(&log, FINISH), vec![1, 0]);
}

#[test]
fn completion_failure_surfaces_from_bypass_phase() {
    let calls = Rc::new(Cell::new(0u64));
    let mw: Rc<Vec<TestMw>> = Rc::new(Vec::new());
    let h = TestHandler {
        calls: Rc::clone(&calls),
        status: 200,
        body: Vec::new(),
        fail_completion: true,
    };
    let mut p: Pipeline<TestMw, TestTask, TestHandler> = Pipeline::new(req(), payload(), mw, h);
    match p.poll() {
        Err(e) => assert_eq!(e.code, 7),
        _ => panic!("the bypass phase propagates the unit's failure"),
    }
}

#[test]
fn pending_start_short_circuit_response() {
    let log = new_log();
    let calls = Rc::new(Cell::new(0u64));
    let mut mws = vec![TestMw::passing(0, &log), TestMw::passing(1, &log)];
    mws[0].start_b = StartB::PendingShort(1, 302);
    let mw = Rc::new(mws);
    let mut p: Pipeline<TestMw, TestTask, TestHandler> =
        Pipeline::new(req(), payload(), mw, handler(&calls, 200));
    assert!(matches!(p.poll(), Ok(Async::Ready(()))));
    // hook 0's operation resolved with a ready response: hook 1 never starts,
    // and with nothing below hook 0 the reverse chains run at index 0 alone
    assert_eq!(calls.get(), 0);
    assert_eq!(entries(&log, START), vec![0]);
    assert_eq!(entries(&log, FINISH), vec![0]);
    match p.0 {
        PipelineState::Finishing(f) => assert_eq!(f.resp.status, 302),
        _ => panic!("expected the finish phase"),
    }
}

#[test]
fn response_chain_sync_path_decrements_to_zero() {
    let log = new_log();
    let mw = Rc::new(vec![
        TestMw::passing(0, &log),
        TestMw::passing(1, &log),
        TestMw::passing(2, &log),
    ]);
    let mut mr = MiddlewaresResponse::new(3, mw);
    assert_eq!(mr.idx, 2);
    let mut r = req();
    let out = mr.response(&mut r, Response { status: 204, tags: Vec::new() });
    assert_eq!(out.expect("synchronous chain delivers").status, 204);
    assert_eq!(mr.idx, 0);
    assert_eq!(entries(&log, RESPONSE), vec![2, 1, 0]);
    // resume after delivery is a degenerate no-op
    assert!(matches!(mr.poll(&mut r), Ok(Async::Ready(None))));
}

#[test]
fn finish_poll_is_idempotent_at_terminal() {
    let log = new_log();
    let calls = Rc::new(Cell::new(0u64));
    let mw = Rc::new(vec![TestMw::passing(0, &log)]);
    let mut p: Pipeline<TestMw, TestTask, TestHandler> =
        Pipeline::new(req(), payload(), mw, handler(&calls, 200));
    assert!(matches!(p.poll(), Ok(Async::Ready(()))));
    assert!(matches!(p.poll(), Ok(Async::Ready(()))));
    // terminal stays terminal without invoking any hook again
    assert_eq!(entries(&log, FINISH), vec![0]);
}

#[test]
fn pending_short_circuit_mid_chain_onion_order() {
    let log = new_log();
    let calls = Rc::new(Cell::new(0u64));
    let mut mws = vec![TestMw::passing(0, &log), TestMw::passing(1, &log), TestMw::passing(2, &log)];
    mws[1].start_b = StartB::PendingShort(1, 503);
    let mw = Rc::new(mws);
    let mut p: Pipeline<TestMw, TestTask, TestHandler> =
        Pipeline::new(req(), payload(), mw, handler(&calls, 200));
    assert!(matches!(p.0, PipelineState::Starting(_)));
    // hook 1's operation resolves with a ready response: a short-circuit,
    // exactly as an immediate one
    loop {
        match p.poll() {
            Ok(Async::Ready(())) => break,
            Ok(Async::NotReady) => continue,
            Err(_) => panic!("no failure on this path"),
        }
    }
    assert_eq!(calls.get(), 0);
    assert_eq!(entries(&log, START), vec![0, 1]);
    assert_eq!(entries(&log, FINISH), vec![0]);
    match p.0 {
        PipelineState::Finishing(f) => assert_eq!(f.resp.status, 503),
        _ => panic!("expected the finish phase"),
    }
}
