//! Link logger for chat workspaces: the verified decisions behind the
//! realtime bot (channel directory, URL extraction, the serial consumer).

pub mod config;
pub mod directory;
pub mod pattern;
pub mod slackbot;
pub mod consumer;
pub mod str_util;

pub use config::{LogLevel, OptsCommon};
pub use directory::{ChannelDirectory, ChannelInfo};
pub use pattern::UrlPattern;
pub use slackbot::{channel_name, Bot, BotError, MessageEvent, SlackWorkspace, UrlHit};
pub use consumer::{Consumer, ConsumerAction, ConsumerEvent, UrlCtx};
pub use str_util::{ts_fmt, TimeStampFormats, TS_FMT_LONG, TS_FMT_SHORT, TS_FMT_SHORT_YEAR, TS_NONE};
