pub mod rwlock;
pub mod seqlock;
pub mod spinlock;
