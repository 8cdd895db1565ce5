//! The decisions and texts of a Telegram moderation bot for a network of chats: who may join
//! (captcha, gifts, Iris registration age), what the antispam checks stop, how commands and
//! button data are read, and every message the bot writes. Each function states what it
//! returns; the bot program around the library does the talking to Telegram, the database
//! and the Iris API.
use vstd::prelude::*;

pub mod strings;
pub mod parse;
pub mod text;
pub mod user;
pub mod message;
pub mod emoji;
pub mod callback;
pub mod keyboards;
pub mod config;
pub mod pattern;
pub mod regexes;
pub mod chat;
pub mod antispam;
pub mod media_group;
pub mod registration;
pub mod captcha;
pub mod duel;
pub mod warns;
pub mod garant;
pub mod scam;
pub mod moderation;
pub mod iris;
