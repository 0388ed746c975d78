mod cpu;
mod laws;
mod op;
mod video;

pub use laws::lemma_cls_twice;
pub use laws::lemma_draw_clips;
pub use laws::lemma_draw_flag;
pub use laws::lemma_draw_involution;
pub use laws::lemma_font_index;
pub use laws::lemma_only_ld_k_sets_the_latch;
pub use laws::lemma_press_preserves_wf;
pub use laws::lemma_state_ranges;
pub use laws::lemma_step_preserves_wf;
pub use laws::lemma_wait_key;

pub use cpu::Cpu;
pub use cpu::CpuView;
pub use cpu::cpu_wf;
pub use cpu::exec_op;
pub use cpu::font_seq;
pub use cpu::initial_cpu;
pub use cpu::is_rnd;
pub use cpu::press_spec;
pub use cpu::step_enabled;
pub use cpu::step_spec;
pub use cpu::tick_dt;
pub use cpu::word_at;
pub use cpu::FONTSET_BASE;
pub use cpu::PROGRAM_BASE;

pub use cpu::line_spec;
pub use op::Op;
pub use op::hex1;
pub use op::hex2;
pub use op::hex3;
pub use op::hex4;
pub use op::hex_digit;
pub use op::op_wf;
pub use op::lemma_decode_encode;
pub use op::lemma_decode_wf;
pub use op::spec_decode;
pub use op::spec_encode;
pub use op::spec_format;
pub use video::Video;
pub use video::draw_collision;
pub use video::draw_grid;
pub use video::grid_wf;
pub use video::in_bounds;
pub use video::map_idx;
pub use video::row_bit;
pub use video::sprite_bit;
