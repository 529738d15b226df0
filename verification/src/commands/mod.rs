pub mod doctor;
pub mod feedback;
pub mod feedback_flow;
pub mod heal;
pub mod html_doc;
pub mod html_md;
pub mod init;
pub mod intake;
pub mod lane_page;
pub mod lint;
pub mod onboard;
pub mod process_intake;
pub mod reject;
pub mod sharpen;
pub mod slack;
pub mod status;
pub mod sync;
pub mod sync_flow;
pub mod tree;
