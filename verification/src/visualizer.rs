pub use self::view_html::ViewHtml;
pub use self::view_html::all_have_html_visual;
pub use self::view_html::case_block;
pub use self::view_html::case_blocks;
pub use self::view_html::description_color;
pub use self::view_html::has_html_visual;
pub use self::view_html::html_report;
pub use self::view_html::html_visual_key;
pub use self::view_html::lemma_html_view_deterministic;
pub use self::view_html::status_color;
pub use self::view_html::status_label;
pub use self::view_simple_text::ViewSimpleText;
pub use self::view_simple_text::case_line;
pub use self::view_simple_text::case_lines;
pub use self::view_simple_text::count_failed;
pub use self::view_simple_text::count_passed;
pub use self::view_simple_text::dec_digit;
pub use self::view_simple_text::dec_rep;
pub use self::view_simple_text::lemma_all_passed_iff_none_failed;
pub use self::view_simple_text::lemma_count_passed_bounds;
pub use self::view_simple_text::lemma_pluralization;
pub use self::view_simple_text::lemma_text_view_deterministic;
pub use self::view_simple_text::result_word;
pub use self::view_simple_text::status_word;
pub use self::view_simple_text::text_report;

mod view_html;
mod view_simple_text;
