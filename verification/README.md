# Middle-Monitor Rust SDK

Captures errors, traces and logs of a service and reports them to Middle-Monitor.

- `src/` decides what is reported, and is verified with Verus: configuration and its
  environment variables, route patterns, sampling, error reports, log entries, submissions,
  the shared client, and the exchanges of an axum service.
- `app/` carries the decisions out: it reads the environment, exports through OpenTelemetry,
  sends submissions and plugs into axum.
- `tests/` runs the library.

## Usage

```rust
let client = MiddleMonitorClient::new(new_config(
    "https://api.middlemonitor.io".to_string(),
    "my-service".to_string(),
    Some("your_token".to_string()),
));
client.report_error("Something went wrong", None, None).await?;
client
    .report_custom_error("DatabaseError", "Failed to connect", "/path/to/db.rs", 123)
    .await?;
```

With axum, one layer captures every request: a trace per request, error status on 4xx and
5xx, and 5xx responses submitted as errors.

```rust
init_simple();
let app: Router = Router::new()
    .route("/", get(handler))
    .layer(from_fn(axum_middleware::middleware));
```

## Environment

| Variable | Meaning |
| --- | --- |
| `MIDDLE_MONITOR_API_URL`, else `OTEL_EXPORTER_OTLP_ENDPOINT` | endpoint |
| `MIDDLE_MONITOR_SERVICE`, else `OTEL_SERVICE_NAME` | name of the service |
| `MIDDLE_MONITOR_TOKEN`, else an `authorization` entry in `OTEL_EXPORTER_OTLP_HEADERS` | token |
| `MIDDLE_MONITOR_PROTOCOL`, else `OTEL_EXPORTER_OTLP_PROTOCOL` | protocol |
| `MIDDLE_MONITOR_TRACES_SAMPLING` | share of traces from 0 to 1; -1 for the default of 0.1 |
| `MIDDLE_MONITOR_LOGS_LEVELS` | log levels that are kept, with commas between them |
| `MIDDLE_MONITOR_LOGS_MIN_HTTP_STATUS` | lowest status whose logs are always kept |

## Trusted code

The proofs rest on the contracts of a few calls: `serde_json` for JSON values,
`chrono` for the time, `rand` for random words, and the Unicode case mappings of
the standard library. Rates are held by their bits, so no floating point is
involved in sampling.
