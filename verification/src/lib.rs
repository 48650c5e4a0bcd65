//! Core logic of a 12-key macro pad with a rotary encoder, an OLED status
//! display, an addressable LED strip, a piezo speaker and a USB keyboard
//! connection.
//!
//! This crate holds everything that runs inside one cooperative tick and can
//! be stated as a function from plain values to plain values: the layer state
//! machine, the serial command parser, the debounced input scanner, the macro
//! action planner with its keyboard-layout remapper, the LED animation engine
//! and the tone generator.  Hardware transports (USB transfers, the display
//! driver, the LED strip serialization, timers) stay outside; they hand this
//! crate snapshots and bytes and carry out the steps it returns.

mod actions;
mod controller;
mod display;
mod hid;
mod layers;
mod led;
mod parse;
mod remap;
mod scan;
mod serial;
mod state;
mod tone;

pub use layers::Layer;
pub use layers::Status;
pub use layers::lemma_advance_cycle;
pub use layers::lemma_advance_overlay_fixed;

pub use led::NUM_KEYS;
pub use led::STATUS_KEY;
pub use led::Rgb;
pub use led::wheel;
pub use led::wheel_spec;
pub use led::tri;
pub use led::tri_spec;
pub use led::scale;
pub use led::scale_spec;
pub use led::scaled_spec;
pub use led::status_color_spec;
pub use led::indicator_spec;
pub use led::base_color_spec;
pub use led::led_at;
pub use led::led_at_spec;
pub use led::led_frame;
pub use led::led_spec;
pub use led::led_output;
pub use led::lemma_led_frame_len;

pub use state::MSG_CAP;
pub use state::RuntimeState;
pub use state::StateView;
pub use state::is_printable;
pub use state::unset_overrides;
pub use state::zero_overrides;
pub use state::lemma_toggle_involution;
pub use state::lemma_advance_properties;

pub use parse::execute_line;
pub use parse::hex_val;
pub use parse::hex_val_spec;
pub use parse::is_dec_digit;
pub use parse::is_hex_digit;
pub use parse::rgb_of_hex_spec;
pub use parse::status_of_spec;
pub use parse::rgb_cmd_spec;
pub use parse::message_of_spec;
pub use parse::line_effect_spec;
pub use parse::prefix_is;
pub use parse::lemma_message_of_wf;
pub use parse::lemma_reset_effect;

pub use serial::LINE_CAP;
pub use serial::LineBuffer;
pub use serial::is_terminator;
pub use serial::buffer_push_spec;
pub use serial::serial_byte;
pub use serial::serial_byte_spec;
pub use serial::serial_input;
pub use serial::serial_fold_spec;

pub use scan::EncoderState;
pub use scan::press_edge_spec;
pub use scan::release_edge_spec;
pub use scan::snapshot_from_levels;
pub use scan::press_edges;
pub use scan::release_edges;

pub use remap::KeyPress;
pub use remap::remap;
pub use remap::remap_spec;
pub use remap::letter_key_spec;
pub use remap::shifted_spec;
pub use remap::lemma_remap_case_pairs;

pub use hid::MOD_LCTRL;
pub use hid::MOD_LSHIFT;
pub use hid::MOD_LALT;
pub use hid::MOD_LGUI;
pub use hid::ReportInfo;
pub use hid::report_spec;
pub use hid::report_bytes;
pub use hid::release_bytes;
pub use hid::decode_report;
pub use hid::decode_report_spec;

pub use tone::SYS_CLOCK_HZ;
pub use tone::PWM_PRESCALER;
pub use tone::TONE_MS;
pub use tone::ARPEGGIO_NOTE_MS;
pub use tone::MELODY_GAP_MS;
pub use tone::ARPEGGIO_GAP_MS;
pub use tone::NOTE_COUNT;
pub use tone::Note;
pub use tone::tone_top;
pub use tone::tone_top_spec;
pub use tone::duty_for;
pub use tone::note_freq;
pub use tone::note_freq_spec;
pub use tone::startup_melody;
pub use tone::startup_melody_spec;
pub use tone::descending_melody;
pub use tone::descending_melody_spec;
pub use tone::arpeggio_notes;
pub use tone::arpeggio_notes_spec;

pub use actions::CHORD_HOLD_MS;
pub use actions::CHORD_GAP_MS;
pub use actions::TYPE_HOLD_MS;
pub use actions::TYPE_GAP_MS;
pub use actions::Chord;
pub use actions::Step;
pub use actions::TextId;
pub use actions::MelodyId;
pub use actions::Action;
pub use actions::action_wf;
pub use actions::text_of;
pub use actions::text_of_spec;
pub use actions::melody_of;
pub use actions::melody_of_spec;
pub use actions::tone_burst;
pub use actions::tone_burst_spec;
pub use actions::chord_steps_spec;
pub use actions::chords_steps_spec;
pub use actions::char_steps_spec;
pub use actions::typed_steps_spec;
pub use actions::melody_note_steps_spec;
pub use actions::melody_steps_spec;
pub use actions::arpeggio_note_steps_spec;
pub use actions::arpeggio_fold_spec;
pub use actions::arpeggio_steps_spec;
pub use actions::plan_chords;
pub use actions::plan_typed;
pub use actions::plan_melody;
pub use actions::plan_arpeggio;
pub use actions::plan_action;
pub use actions::action_for;
pub use actions::action_spec;
pub use actions::action_steps_spec;
pub use actions::lemma_top_fits;

pub use display::layer_name;
pub use display::layer_name_spec;
pub use display::label;
pub use display::label_spec;
pub use display::status_icon;
pub use display::status_icon_spec;

pub use controller::Controller;
pub use controller::ControllerView;
pub use controller::press_spec;
pub use controller::release_spec;
pub use controller::key_step_spec;
pub use controller::keys_fold_spec;
pub use controller::process_keys;
pub use controller::tick_spec;
pub use controller::next_tick_spec;
