//! Device logic of a portable RF survey and telemetry receiver.
pub mod audio;
pub mod bringup;
pub mod buttons;
pub mod calendar;
pub mod card;
pub mod chars;
pub mod clock;
pub mod crc;
pub mod digits;
pub mod display;
pub mod format;
pub mod golden;
pub mod journal;
pub mod le;
pub mod gps;
pub mod logged;
pub mod loram;
pub mod nmea;
pub mod packet;
pub mod radio;
pub mod readback;
pub mod reader;
pub mod receiver;
pub mod records;
pub mod sender_mode;
pub mod session;
pub mod short_name;
pub mod startup;
pub mod storage;
pub mod system;
pub mod text;
pub mod tones;
