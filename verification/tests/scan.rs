use futures::stream::{FuturesUnordered, StreamExt};
use sentinelscope::engine::{ScanEngine, ScanRequest};
use sentinelscope::probe::{ProbeOutcome, ProbeResult};
use std::time::Duration;

/// Runs one whole scan against real sockets: the engine decides every step,
/// this loop performs the connection attempts and feeds the outcomes back.
fn scan(host: &str, ports: Vec<u16>, timeout_ms: u64, concurrency: usize) -> Vec<ProbeResult> {
    let runtime = tokio::runtime::Builder::new_multi_thread()
        .enable_all()
        .build()
        .unwrap();
    let mut engine = ScanEngine::new(ScanRequest {
        host: host.to_string(),
        ports,
        timeout_ms,
        concurrency,
    })
    .unwrap();
    runtime.block_on(async {
        let mut attempts = FuturesUnordered::new();
        loop {
            while engine.can_launch() {
                let (index, port) = engine.launch();
                let target = engine.host().clone();
                let deadline = engine.timeout_ms();
                attempts.push(async move { (index, probe(target, port, deadline).await) });
            }
            if engine.is_done() {
                break;
            }
            if let Some((index, outcome)) = attempts.next().await {
                if engine.is_pending(index) {
                    engine.complete(index, outcome);
                }
            }
        }
        engine.finish()
    })
}

async fn probe(host: String, port: u16, timeout_ms: u64) -> ProbeOutcome {
    let attempt = tokio::net::TcpStream::connect((host.as_str(), port));
    match tokio::time::timeout(Duration::from_millis(timeout_ms), attempt).await {
        Ok(Ok(_stream)) => ProbeOutcome::Connected,
        Ok(Err(e)) if e.kind() == std::io::ErrorKind::ConnectionRefused => ProbeOutcome::Refused,
        Ok(Err(_)) => ProbeOutcome::NetworkError,
        Err(_) => ProbeOutcome::TimedOut,
    }
}

/// Binds a listener on an ephemeral loopback port and immediately drops it,
/// yielding a port with no listener.
fn closed_port() -> u16 {
    let runtime = tokio::runtime::Builder::new_current_thread()
        .enable_all()
        .build()
        .unwrap();
    runtime.block_on(async {
        let listener = tokio::net::TcpListener::bind(("127.0.0.1", 0)).await.unwrap();
        listener.local_addr().unwrap().port()
    })
}

/// Two distinct ephemeral loopback ports with no listener: both are bound
/// at the same time (so they cannot collide) and then released together.
fn two_closed_ports() -> (u16, u16) {
    let runtime = tokio::runtime::Builder::new_current_thread()
        .enable_all()
        .build()
        .unwrap();
    runtime.block_on(async {
        let first = tokio::net::TcpListener::bind(("127.0.0.1", 0)).await.unwrap();
        let second = tokio::net::TcpListener::bind(("127.0.0.1", 0)).await.unwrap();
        (
            first.local_addr().unwrap().port(),
            second.local_addr().unwrap().port(),
        )
    })
}

#[test]
fn refused_port_reported_unreachable() {
    let port = closed_port();
    let results = scan("127.0.0.1", vec![port], 1000, 1);
    assert_eq!(results, vec![ProbeResult { port, reachable: false }]);
}

#[test]
fn probe_failures_never_surface_as_errors() {
    let (port_a, port_b) = two_closed_ports();
    let results = scan("127.0.0.1", vec![port_a, port_b, port_a], 200, 2);
    assert_eq!(results.len(), 3);
    assert!(results.iter().all(|r| !r.reachable));
    assert_eq!(results.iter().filter(|r| r.port == port_a).count(), 2);
    assert_eq!(results.iter().filter(|r| r.port == port_b).count(), 1);
}

#[test]
fn unresponsive_port_reported_unreachable_within_bound() {
    let runtime = tokio::runtime::Builder::new_multi_thread()
        .enable_all()
        .build()
        .unwrap();
    // A listener with a full accept queue neither accepts nor refuses
    // further handshakes, so a probe against it can only run into its
    // deadline (or, on hosts that reset overflowing queues, a refusal).
    let (port, guards) = runtime.block_on(async {
        let socket = tokio::net::TcpSocket::new_v4().unwrap();
        socket.bind("127.0.0.1:0".parse().unwrap()).unwrap();
        let listener = socket.listen(1).unwrap();
        let port = listener.local_addr().unwrap().port();
        let mut held = Vec::new();
        for _ in 0..3 {
            let attempt = tokio::net::TcpStream::connect(("127.0.0.1", port));
            if let Ok(Ok(stream)) = tokio::time::timeout(Duration::from_millis(200), attempt).await
            {
                held.push(stream);
            }
        }
        (port, (listener, held))
    });
    let started = std::time::Instant::now();
    let results = scan("127.0.0.1", vec![port], 300, 1);
    let elapsed = started.elapsed();
    assert_eq!(results, vec![ProbeResult { port, reachable: false }]);
    assert!(elapsed < Duration::from_secs(10));
    drop(guards);
    drop(runtime);
}
