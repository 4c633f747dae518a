//! Runtime-contract tests: the concurrency behaviour the synthesized
//! declaration set describes, exercised on hand-expanded artifacts shaped
//! exactly as the models prescribe — one channel per capability, the proxy
//! holding the send endpoints, a background loop owning the state and
//! applying handlers sequentially, and an `ActorSpawn` bundle handed back.

use std::sync::Arc;
use std::time::Duration;

use tokio::sync::mpsc::error::SendError;
use tokio::sync::mpsc::{unbounded_channel, UnboundedSender};
use tokio::sync::oneshot;

use troupe::ActorSpawn;

struct Counter {
    count: i64,
}

enum IncrementerPayload {
    Incr(i64),
}

struct CounterActor {
    incrementer: UnboundedSender<IncrementerPayload>,
}

impl Counter {
    async fn perform_incrementer(&mut self, msg: IncrementerPayload) -> Result<(), ()> {
        match msg {
            IncrementerPayload::Incr(n) => {
                self.count += n;
            }
        }
        Ok(())
    }
}

impl CounterActor {
    async fn incr(&self, _0: i64) -> Result<(), SendError<IncrementerPayload>> {
        let msg = _0;
        self.incrementer.send(IncrementerPayload::Incr(msg))
    }
}

fn start_counter(mut state: Counter, report: oneshot::Sender<i64>) -> ActorSpawn<CounterActor> {
    let (incrementer_input, mut incrementer_output) = unbounded_channel();
    let actor = Arc::new(CounterActor { incrementer: incrementer_input });
    let event_loop = async move {
        while let Some(msg) = incrementer_output.recv().await {
            state.perform_incrementer(msg).await.map_err(|_| ())?;
        }
        let _ = report.send(state.count);
        Ok::<(), ()>(())
    };
    let join_handle = tokio::task::spawn(event_loop);
    ActorSpawn::new(actor, join_handle)
}

#[test]
fn counter_processes_sends_in_order() {
    let rt = tokio::runtime::Builder::new_current_thread().enable_all().build().unwrap();
    rt.block_on(async {
        let (report_tx, report_rx) = oneshot::channel();
        let spawn = start_counter(Counter { count: 0 }, report_tx);
        assert!(spawn.actor.incr(5).await.is_ok());
        assert!(spawn.actor.incr(3).await.is_ok());
        drop(spawn.actor);
        let counted = report_rx.await.unwrap();
        assert_eq!(counted, 8);
        let joined = spawn.join_handle.await;
        assert!(matches!(joined, Ok(Ok(()))));
    });
}

#[test]
fn dropping_all_handles_ends_the_loop() {
    let rt = tokio::runtime::Builder::new_current_thread().enable_all().build().unwrap();
    rt.block_on(async {
        let (report_tx, report_rx) = oneshot::channel();
        let spawn = start_counter(Counter { count: 0 }, report_tx);
        drop(report_rx);
        drop(spawn.actor);
        let joined = tokio::time::timeout(Duration::from_secs(10), spawn.join_handle).await;
        assert!(matches!(joined, Ok(Ok(Ok(())))));
    });
}

enum LoggerPayload {
    Log(String),
}

struct Scribe {
    lines: Vec<String>,
}

struct ScribeActor {
    logger: UnboundedSender<LoggerPayload>,
}

struct Archivist {
    lines: Vec<String>,
}

struct ArchivistActor {
    logger: UnboundedSender<LoggerPayload>,
}

impl Scribe {
    async fn perform_logger(&mut self, msg: LoggerPayload) -> Result<(), ()> {
        match msg {
            LoggerPayload::Log(line) => self.lines.push(line),
        }
        Ok(())
    }
}

impl Archivist {
    async fn perform_logger(&mut self, msg: LoggerPayload) -> Result<(), ()> {
        match msg {
            LoggerPayload::Log(line) => self.lines.push(line),
        }
        Ok(())
    }
}

impl ScribeActor {
    async fn log(&self, _0: String) -> Result<(), SendError<LoggerPayload>> {
        self.logger.send(LoggerPayload::Log(_0))
    }
}

impl ArchivistActor {
    async fn log(&self, _0: String) -> Result<(), SendError<LoggerPayload>> {
        self.logger.send(LoggerPayload::Log(_0))
    }
}

fn start_scribe(mut state: Scribe, report: oneshot::Sender<Vec<String>>) -> ActorSpawn<ScribeActor> {
    let (logger_input, mut logger_output) = unbounded_channel();
    let actor = Arc::new(ScribeActor { logger: logger_input });
    let event_loop = async move {
        while let Some(msg) = logger_output.recv().await {
            state.perform_logger(msg).await.map_err(|_| ())?;
        }
        let _ = report.send(state.lines);
        Ok::<(), ()>(())
    };
    ActorSpawn::new(actor, tokio::task::spawn(event_loop))
}

fn start_archivist(mut state: Archivist, report: oneshot::Sender<Vec<String>>) -> ActorSpawn<ArchivistActor> {
    let (logger_input, mut logger_output) = unbounded_channel();
    let actor = Arc::new(ArchivistActor { logger: logger_input });
    let event_loop = async move {
        while let Some(msg) = logger_output.recv().await {
            state.perform_logger(msg).await.map_err(|_| ())?;
        }
        let _ = report.send(state.lines);
        Ok::<(), ()>(())
    };
    ActorSpawn::new(actor, tokio::task::spawn(event_loop))
}

#[test]
fn two_actors_share_one_capability_and_message_type() {
    let rt = tokio::runtime::Builder::new_current_thread().enable_all().build().unwrap();
    rt.block_on(async {
        // One declares Logger canonically; the other performs it.  Both
        // accept the same sending-method call shape and the same message
        // type, with no redeclaration of either.
        let (scribe_tx, scribe_rx) = oneshot::channel();
        let (archivist_tx, archivist_rx) = oneshot::channel();
        let scribe = start_scribe(Scribe { lines: Vec::new() }, scribe_tx);
        let archivist = start_archivist(Archivist { lines: Vec::new() }, archivist_tx);

        assert!(scribe.actor.log("hello".to_string()).await.is_ok());
        assert!(archivist.actor.log("hello".to_string()).await.is_ok());

        drop(scribe.actor);
        drop(archivist.actor);
        assert_eq!(scribe_rx.await.unwrap(), vec!["hello".to_string()]);
        assert_eq!(archivist_rx.await.unwrap(), vec!["hello".to_string()]);
        assert!(matches!(scribe.join_handle.await, Ok(Ok(()))));
        assert!(matches!(archivist.join_handle.await, Ok(Ok(()))));
    });
}

struct Olaf {
    alive: bool,
}

enum FuncootPayload {
    DoThing((troupe::AType, troupe::Pattern)),
}

struct OlafActor {
    funcoot: UnboundedSender<FuncootPayload>,
}

impl Olaf {
    fn speak(&mut self) {
        println!("Hello")
    }

    async fn perform_funcoot(&mut self, msg: FuncootPayload) -> Result<(), ()> {
        match msg {
            FuncootPayload::DoThing((_a_name, _another)) => {
                self.speak();
            }
        }
        Ok(())
    }
}

impl OlafActor {
    async fn do_thing(
        &self,
        _0: troupe::AType,
        _1: troupe::Pattern,
    ) -> Result<(), SendError<FuncootPayload>> {
        let msg = (_0, _1);
        self.funcoot.send(FuncootPayload::DoThing(msg))
    }
}

fn start_olaf(mut state: Olaf) -> ActorSpawn<OlafActor> {
    let (funcoot_input, mut funcoot_output) = unbounded_channel();
    let actor = Arc::new(OlafActor { funcoot: funcoot_input });
    let event_loop = async move {
        while let Some(msg) = funcoot_output.recv().await {
            state.perform_funcoot(msg).await.map_err(|_| ())?;
        }
        Ok::<(), ()>(())
    };
    ActorSpawn::new(actor, tokio::task::spawn(event_loop))
}

#[test]
fn ping() {
    let rt = tokio::runtime::Builder::new_current_thread().enable_all().build().unwrap();
    rt.block_on(async {
        let state = Olaf { alive: true };
        let actor_handle = start_olaf(state).actor;
        assert!(actor_handle.do_thing(troupe::AType {}, troupe::Pattern {}).await.is_ok());
    });
}
