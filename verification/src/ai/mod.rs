//! What the host computes for the services it talks to: the addresses and
//! bodies of its requests, and how it reads what streams back.

pub mod chromadb;
pub mod llm;
