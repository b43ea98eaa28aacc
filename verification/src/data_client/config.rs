//! The shared configuration (`config.toml`).

use vstd::prelude::*;

verus! {

pub struct Configs {
    pub rabbitmq: RabbitMQ,
    pub feedback: Feedback,
    pub database: Database,
    pub yqwork: YQWork,
}

pub struct RabbitMQ {
    pub url: String,
    pub feedback_queue: String,
}

pub struct Feedback {
    pub admin_qq: Vec<String>,
    pub group_id: String,
}

pub struct Database {
    pub database_url: String,
    pub max_connections: u32,
}

pub struct YQWork {
    pub uid: u32,
    pub secret: String,
    pub url: String,
}

} // verus!
