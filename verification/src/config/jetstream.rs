//! Stream-persistence options.
//!
//! | Environment               | Server Flag           | Description                       |
//! |---------------------------|-----------------------|-----------------------------------|
//! | `RTM_JS_SERVER_JETSTREAM` | `-js`, `--jetstream`  | Enable stream persistence.        |
//! | `RTM_JS_SERVER_STOREDIR`  | `-sd`, `--store_dir`  | Set the storage directory.        |
