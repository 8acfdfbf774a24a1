//! A small library of verified exercises in the core of the language:
//! arithmetic helpers, struct and enum modelling, string building,
//! slice scanning, and a quota tracker that reports through a
//! caller-supplied messenger.

pub mod basics;
pub mod borrowing;
pub mod coins;
pub mod collections;
pub mod enums;
pub mod generics;
pub mod guessing;
pub mod inventory;
pub mod lifetimes;
pub mod rectangles;
pub mod restaurant;
pub mod shoes;
pub mod slices;
pub mod structs;
pub mod summaries;
pub mod tracker;
